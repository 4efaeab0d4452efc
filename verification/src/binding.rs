//! The contract that every engine binding meets, and the model it is stated over.
use crate::error::Error;
use raw_window_handle::RawWindowHandle;
use vstd::prelude::*;

verus! {

/// The raw window handle of the `raw_window_handle` crate: an opaque value that
/// names a native window. Nothing here looks inside it.
#[verifier::external_type_specification]
#[verifier::external_body]
pub struct ExRawWindowHandle(RawWindowHandle);

/// One command that an engine accepted.
pub enum Command {
    /// A script submitted for evaluation.
    Eval(Seq<char>),
    /// A stylesheet injected in place of any earlier one.
    InjectCss(Seq<char>),
    /// A document loaded in place of the current page.
    LoadHtml(Seq<char>),
}

/// The stylesheet in force after the commands of `log`: the one injected last.
pub open spec fn active_style(log: Seq<Command>) -> Option<Seq<char>>
    decreases log.len(),
{
    if log.len() == 0 {
        None
    } else {
        match log.last() {
            Command::InjectCss(css) => Some(css),
            _ => active_style(log.drop_last()),
        }
    }
}

/// The document shown after the commands of `log`: the one loaded last.
pub open spec fn current_document(log: Seq<Command>) -> Option<Seq<char>>
    decreases log.len(),
{
    if log.len() == 0 {
        None
    } else {
        match log.last() {
            Command::LoadHtml(html) => Some(html),
            _ => current_document(log.drop_last()),
        }
    }
}

/// The scripts submitted by the commands of `log`, in order, each once.
pub open spec fn submitted_scripts(log: Seq<Command>) -> Seq<Seq<char>>
    decreases log.len(),
{
    if log.len() == 0 {
        Seq::empty()
    } else {
        match log.last() {
            Command::Eval(js) => submitted_scripts(log.drop_last()).push(js),
            _ => submitted_scripts(log.drop_last()),
        }
    }
}

/// A submitted script joins the submitted scripts as the last one, and leaves the
/// stylesheet in force and the document shown as they were.
pub proof fn law_eval_adds_one_script(log: Seq<Command>, js: Seq<char>)
    ensures
        submitted_scripts(log.push(Command::Eval(js))) == submitted_scripts(log).push(js),
        active_style(log.push(Command::Eval(js))) == active_style(log),
        current_document(log.push(Command::Eval(js))) == current_document(log),
{
    let after = log.push(Command::Eval(js));
    assert(after.drop_last() =~= log);
}

/// An injected stylesheet is the one in force, whatever was in force before, and
/// leaves the submitted scripts and the document shown as they were.
pub proof fn law_inject_css_replaces_style(log: Seq<Command>, css: Seq<char>)
    ensures
        active_style(log.push(Command::InjectCss(css))) == Some(css),
        submitted_scripts(log.push(Command::InjectCss(css))) == submitted_scripts(log),
        current_document(log.push(Command::InjectCss(css))) == current_document(log),
{
    let after = log.push(Command::InjectCss(css));
    assert(after.drop_last() =~= log);
}

/// A loaded document is the one shown, whatever was shown before, and leaves the
/// submitted scripts and the stylesheet in force as they were.
pub proof fn law_load_html_replaces_document(log: Seq<Command>, html: Seq<char>)
    ensures
        current_document(log.push(Command::LoadHtml(html))) == Some(html),
        submitted_scripts(log.push(Command::LoadHtml(html))) == submitted_scripts(log),
        active_style(log.push(Command::LoadHtml(html))) == active_style(log),
{
    let after = log.push(Command::LoadHtml(html));
    assert(after.drop_last() =~= log);
}

/// Of two stylesheets injected one after the other, only the second is in force.
pub proof fn law_second_style_wins(log: Seq<Command>, first: Seq<char>, second: Seq<char>)
    ensures
        active_style(log.push(Command::InjectCss(first)).push(Command::InjectCss(second)))
            == Some(second),
        active_style(log.push(Command::InjectCss(first)).push(Command::InjectCss(second)))
            == active_style(log.push(Command::InjectCss(second))),
{
    law_inject_css_replaces_style(log.push(Command::InjectCss(first)), second);
    law_inject_css_replaces_style(log, second);
}

/// A document loaded after a script was submitted neither loses the script nor
/// submits it again: the script stays the last of the submitted scripts, once.
/// Nor does the order matter to what is submitted and shown.
pub proof fn law_load_after_eval_keeps_script(log: Seq<Command>, js: Seq<char>, html: Seq<char>)
    ensures
        submitted_scripts(log.push(Command::Eval(js)).push(Command::LoadHtml(html)))
            == submitted_scripts(log).push(js),
        current_document(log.push(Command::Eval(js)).push(Command::LoadHtml(html))) == Some(
            html,
        ),
        submitted_scripts(log.push(Command::LoadHtml(html)).push(Command::Eval(js)))
            == submitted_scripts(log).push(js),
        current_document(log.push(Command::LoadHtml(html)).push(Command::Eval(js))) == Some(
            html,
        ),
{
    law_eval_adds_one_script(log, js);
    law_load_html_replaces_document(log.push(Command::Eval(js)), html);
    law_load_html_replaces_document(log, html);
    law_eval_adds_one_script(log.push(Command::LoadHtml(html)), js);
}

/// Before any command nothing is submitted, in force or shown.
pub proof fn law_fresh_engine_is_blank()
    ensures
        submitted_scripts(Seq::<Command>::empty()) == Seq::<Seq<char>>::empty(),
        active_style(Seq::<Command>::empty()) is None,
        current_document(Seq::<Command>::empty()) is None,
{
}

/// An adapter for one native web-rendering engine.
///
/// An implementer does not take itself for the only live value of its type, and
/// reports a failure of the engine as an [`Error`] in place of stopping the
/// process. After a command that failed nothing is known of the accepted
/// commands; the binding stays usable.
pub trait WebViewBinding: Sized {
    /// The window the binding is attached to. An implementer that states
    /// nothing leaves it unknown.
    open spec fn window(&self) -> RawWindowHandle {
        arbitrary()
    }

    /// The commands the engine accepted so far, oldest first. An implementer
    /// that states nothing leaves them unknown.
    open spec fn accepted(&self) -> Seq<Command> {
        arbitrary()
    }

    /// The operating system the binding is restricted to, if any. An implementer
    /// that states nothing leaves it unknown.
    open spec fn declared_os() -> Option<Seq<char>> {
        arbitrary()
    }

    /// The platform family the binding is restricted to, if any. An
    /// implementer that states nothing leaves it unknown.
    open spec fn declared_family() -> Option<Seq<char>> {
        arbitrary()
    }

    /// Builds a binding attached to `window_handle`, with no command accepted yet.
    fn init(window_handle: RawWindowHandle) -> (r: Result<Self, Error>)
        ensures
            r matches Ok(binding) ==> binding.window() == window_handle
                && binding.accepted() == Seq::<Command>::empty(),
    ;

    /// Sends JavaScript to the engine for evaluation. `Ok` says that the engine
    /// took the script, not how the script fared.
    fn eval(&mut self, js: &str) -> (r: Result<(), Error>)
        ensures
            final(self).window() == old(self).window(),
            r is Ok ==> final(self).accepted() == old(self).accepted().push(Command::Eval(js@)),
    ;

    /// Injects CSS, in place of what was injected before.
    fn inject_css(&mut self, css: &str) -> (r: Result<(), Error>)
        ensures
            final(self).window() == old(self).window(),
            r is Ok ==> final(self).accepted() == old(self).accepted().push(
                Command::InjectCss(css@),
            ),
    ;

    /// Loads the given HTML, in place of the page shown before.
    fn load_html(&mut self, html: &str) -> (r: Result<(), Error>)
        ensures
            final(self).window() == old(self).window(),
            r is Ok ==> final(self).accepted() == old(self).accepted().push(
                Command::LoadHtml(html@),
            ),
    ;

    /// The operating system the binding is restricted to; `None` for no restriction.
    fn target_os() -> (r: Option<&'static str>)
        ensures
            crate::target::optional_text(r) == Self::declared_os(),
    ;

    /// The platform family the binding is restricted to; `None` for no restriction.
    fn target_family() -> (r: Option<&'static str>)
        ensures
            crate::target::optional_text(r) == Self::declared_family(),
    ;
}

} // verus!
