//! The handle: one binding behind the three commands and the target validation.
use crate::binding::{Command, WebViewBinding};
use crate::error::Error;
use crate::target::{check, first_violation, suits, TargetMismatch};
use raw_window_handle::RawWindowHandle;
use vstd::prelude::*;

verus! {

/// Owns the binding used for one web view. The binding is chosen by the type
/// and built with the view; it is never exchanged.
pub struct WebView<B: WebViewBinding> {
    binding: B,
}

impl<B: WebViewBinding> WebView<B> {
    /// The binding the view owns.
    pub closed spec fn inner(&self) -> B {
        self.binding
    }

    /// The window the view's binding is attached to.
    pub open spec fn window(&self) -> RawWindowHandle {
        self.inner().window()
    }

    /// The commands the view's engine accepted so far, oldest first.
    pub open spec fn accepted(&self) -> Seq<Command> {
        self.inner().accepted()
    }

    /// Whether a target, given by its operating system and platform family,
    /// suits the restrictions that the binding's type declares.
    pub open spec fn suits_target(os: Seq<char>, family: Seq<char>) -> bool {
        suits(B::declared_os(), B::declared_family(), os, family)
    }

    /// Wraps what a binding's constructor returned: a view that owns the binding
    /// it built, or the constructor's error and no view.
    pub fn wrap(built: Result<B, Error>) -> (r: Result<Self, Error>)
        ensures
            match built {
                Ok(binding) => r matches Ok(view) && view.inner() == binding,
                Err(e) => r == Err::<Self, Error>(e),
            },
    {
        match built {
            Ok(binding) => Ok(WebView { binding }),
            Err(e) => Err(e),
        }
    }

    /// What `new` hands back for `r`, seen as a result of the binding's
    /// constructor: the binding inside the view, or the error.
    pub open spec fn built(r: Result<Self, Error>) -> Result<B, Error> {
        match r {
            Ok(view) => Ok(view.inner()),
            Err(e) => Err(e),
        }
    }

    /// Builds the view on a window: calls `B::init` with the same handle and
    /// wraps what it returns.
    ///
    /// Whether that succeeds is for `B::init` to decide. The result is a result
    /// of `B::init` for `window_handle`, the binding wrapped: a view is attached
    /// to that window and has accepted no command yet.
    pub fn new(window_handle: RawWindowHandle) -> (r: Result<Self, Error>)
        ensures
            call_ensures(B::init, (window_handle,), Self::built(r)),
            r matches Ok(view) ==> view.window() == window_handle && view.accepted()
                == Seq::<Command>::empty(),
    {
        Self::wrap(B::init(window_handle))
    }

    /// The binding the view owns, to look at.
    pub fn binding(&self) -> (b: &B)
        ensures
            *b == self.inner(),
    {
        &self.binding
    }

    /// Holds the binding's restrictions against the running target, given by its
    /// operating system and platform family.
    ///
    /// Returns `Ok` exactly when the target suits the binding; otherwise the first
    /// restriction that is broken, the operating system before the family, with
    /// the value it expects and the value of the target.
    pub fn check_target(&self, os: &str, family: &str) -> (r: Result<(), TargetMismatch>)
        ensures
            r is Ok <==> Self::suits_target(os@, family@),
            match r {
                Ok(_) => first_violation(B::declared_os(), B::declared_family(), os@, family@)
                    is None,
                Err(mismatch) => first_violation(
                    B::declared_os(),
                    B::declared_family(),
                    os@,
                    family@,
                ) == Some(mismatch@),
            },
    {
        check(B::target_os(), B::target_family(), os, family)
    }

    /// States that the running target suits the binding, before the view is used.
    ///
    /// A target that does not suit is a defect of the build, not an error to
    /// handle, so the call is open only to callers whose target suits. A caller
    /// that cannot know asks [`WebView::check_target`] first.
    pub fn validate_target(&self, os: &str, family: &str)
        requires
            Self::suits_target(os@, family@),
    {
    }

    /// Sends JavaScript to the backing engine for evaluation.
    ///
    /// The script goes to the binding as it is, once, and what the binding
    /// answers comes back as it is: the result, with the binding before and
    /// after, is an outcome of the binding's own `eval` on `js`. On `Ok` the
    /// engine accepted exactly this one more command.
    pub fn eval(&mut self, js: &str) -> (r: Result<(), Error>)
        ensures
            exists|binding: &mut B|
                mut_ref_current(binding) == old(self).inner()
                    && mut_ref_future(binding) == final(self).inner()
                    && #[trigger] call_ensures(B::eval, (binding, js), r),
            final(self).window() == old(self).window(),
            r is Ok ==> final(self).accepted() == old(self).accepted().push(Command::Eval(js@)),
    {
        let binding = &mut self.binding;
        binding.eval(js)
    }

    /// Injects CSS, overwriting, into the backing engine.
    ///
    /// The stylesheet goes to the binding as it is, once, and what the binding
    /// answers comes back as it is: the result, with the binding before and
    /// after, is an outcome of the binding's own `inject_css` on `css`. On `Ok`
    /// the engine accepted exactly this one more command.
    pub fn inject_css(&mut self, css: &str) -> (r: Result<(), Error>)
        ensures
            exists|binding: &mut B|
                mut_ref_current(binding) == old(self).inner()
                    && mut_ref_future(binding) == final(self).inner()
                    && #[trigger] call_ensures(B::inject_css, (binding, css), r),
            final(self).window() == old(self).window(),
            r is Ok ==> final(self).accepted() == old(self).accepted().push(
                Command::InjectCss(css@),
            ),
    {
        let binding = &mut self.binding;
        binding.inject_css(css)
    }

    /// Loads the given HTML, overwriting the currently loaded page.
    ///
    /// The markup goes to the binding as it is, once, and what the binding
    /// answers comes back as it is: the result, with the binding before and
    /// after, is an outcome of the binding's own `load_html` on `html`. On `Ok`
    /// the engine accepted exactly this one more command.
    pub fn load_html(&mut self, html: &str) -> (r: Result<(), Error>)
        ensures
            exists|binding: &mut B|
                mut_ref_current(binding) == old(self).inner()
                    && mut_ref_future(binding) == final(self).inner()
                    && #[trigger] call_ensures(B::load_html, (binding, html), r),
            final(self).window() == old(self).window(),
            r is Ok ==> final(self).accepted() == old(self).accepted().push(
                Command::LoadHtml(html@),
            ),
    {
        let binding = &mut self.binding;
        binding.load_html(html)
    }
}

} // verus!
