//! A binding that drives no engine: it accepts every command and keeps it, so
//! that a host can be exercised, and looked at, without a native web view.
use crate::binding::{
    active_style, current_document, submitted_scripts, Command, WebViewBinding,
};
use crate::error::Error;
use crate::target::optional_text;
use raw_window_handle::RawWindowHandle;
use vstd::prelude::*;

verus! {

/// A command as a [`Recorder`] keeps it.
#[derive(Debug, PartialEq, Eq)]
pub enum Recorded {
    /// A script submitted for evaluation.
    Eval(String),
    /// A stylesheet injected in place of any earlier one.
    InjectCss(String),
    /// A document loaded in place of the current page.
    LoadHtml(String),
}

impl View for Recorded {
    type V = Command;

    open spec fn view(&self) -> Command {
        match self {
            Recorded::Eval(js) => Command::Eval(js@),
            Recorded::InjectCss(css) => Command::InjectCss(css@),
            Recorded::LoadHtml(html) => Command::LoadHtml(html@),
        }
    }
}

/// The commands that a sequence of kept commands stands for.
pub open spec fn commands(kept: Seq<Recorded>) -> Seq<Command> {
    Seq::new(kept.len(), |i: int| kept[i]@)
}

/// The characters of each of a sequence of texts.
pub open spec fn texts(owned: Seq<String>) -> Seq<Seq<char>> {
    Seq::new(owned.len(), |i: int| owned[i]@)
}

/// The binding that records: attached to a window, restricted to no target.
pub struct Recorder {
    window: RawWindowHandle,
    calls: Vec<Recorded>,
}

impl Recorder {
    /// The commands kept so far, oldest first.
    pub fn calls(&self) -> (kept: &Vec<Recorded>)
        ensures
            commands(kept@) == self.accepted(),
    {
        &self.calls
    }

    /// The window the recorder was built on.
    pub fn window_handle(&self) -> (handle: RawWindowHandle)
        ensures
            handle == self.window(),
    {
        self.window
    }

    /// The stylesheet in force: the one injected last, if any was.
    pub fn active_style(&self) -> (style: Option<&str>)
        ensures
            optional_text(style) == active_style(self.accepted()),
    {
        let ghost log = commands(self.calls@);
        let mut i: usize = self.calls.len();
        assert(log.take(i as int) =~= log);
        while i > 0
            invariant
                i <= self.calls.len(),
                log == commands(self.calls@),
                active_style(log) == active_style(log.take(i as int)),
            decreases i,
        {
            i -= 1;
            proof {
                let upto = log.take(i + 1);
                assert(upto.last() == log[i as int]);
                assert(upto.drop_last() =~= log.take(i as int));
            }
            if let Recorded::InjectCss(css) = &self.calls[i] {
                return Some(css.as_str());
            }
        }
        None
    }

    /// The document shown: the one loaded last, if any was.
    pub fn document(&self) -> (shown: Option<&str>)
        ensures
            optional_text(shown) == current_document(self.accepted()),
    {
        let ghost log = commands(self.calls@);
        let mut i: usize = self.calls.len();
        assert(log.take(i as int) =~= log);
        while i > 0
            invariant
                i <= self.calls.len(),
                log == commands(self.calls@),
                current_document(log) == current_document(log.take(i as int)),
            decreases i,
        {
            i -= 1;
            proof {
                let upto = log.take(i + 1);
                assert(upto.last() == log[i as int]);
                assert(upto.drop_last() =~= log.take(i as int));
            }
            if let Recorded::LoadHtml(html) = &self.calls[i] {
                return Some(html.as_str());
            }
        }
        None
    }

    /// The scripts submitted, in order, each once.
    pub fn scripts(&self) -> (submitted: Vec<String>)
        ensures
            texts(submitted@) == submitted_scripts(self.accepted()),
    {
        let ghost log = commands(self.calls@);
        let mut submitted: Vec<String> = Vec::new();
        let mut i: usize = 0;
        assert(texts(submitted@) =~= submitted_scripts(log.take(0)));
        while i < self.calls.len()
            invariant
                i <= self.calls.len(),
                log == commands(self.calls@),
                texts(submitted@) == submitted_scripts(log.take(i as int)),
            decreases self.calls.len() - i,
        {
            proof {
                let upto = log.take(i + 1);
                assert(upto.last() == log[i as int]);
                assert(upto.drop_last() =~= log.take(i as int));
            }
            if let Recorded::Eval(js) = &self.calls[i] {
                let ghost before = texts(submitted@);
                submitted.push(js.clone());
                assert(texts(submitted@) =~= before.push(js@));
            }
            i += 1;
        }
        assert(log.take(i as int) =~= log);
        submitted
    }
}

impl WebViewBinding for Recorder {
    closed spec fn window(&self) -> RawWindowHandle {
        self.window
    }

    closed spec fn accepted(&self) -> Seq<Command> {
        commands(self.calls@)
    }

    open spec fn declared_os() -> Option<Seq<char>> {
        None
    }

    open spec fn declared_family() -> Option<Seq<char>> {
        None
    }

    /// Never fails.
    fn init(window_handle: RawWindowHandle) -> (r: Result<Self, Error>)
        ensures
            r is Ok,
    {
        let recorder = Recorder { window: window_handle, calls: Vec::new() };
        assert(recorder.accepted() =~= Seq::<Command>::empty());
        Ok(recorder)
    }

    /// Never fails.
    fn eval(&mut self, js: &str) -> (r: Result<(), Error>)
        ensures
            r is Ok,
    {
        self.calls.push(Recorded::Eval(String::from_str(js)));
        assert(final(self).accepted() =~= old(self).accepted().push(Command::Eval(js@)));
        Ok(())
    }

    /// Never fails.
    fn inject_css(&mut self, css: &str) -> (r: Result<(), Error>)
        ensures
            r is Ok,
    {
        self.calls.push(Recorded::InjectCss(String::from_str(css)));
        assert(final(self).accepted() =~= old(self).accepted().push(Command::InjectCss(css@)));
        Ok(())
    }

    /// Never fails.
    fn load_html(&mut self, html: &str) -> (r: Result<(), Error>)
        ensures
            r is Ok,
    {
        self.calls.push(Recorded::LoadHtml(String::from_str(html)));
        assert(final(self).accepted() =~= old(self).accepted().push(Command::LoadHtml(html@)));
        Ok(())
    }

    fn target_os() -> (r: Option<&'static str>) {
        None
    }

    fn target_family() -> (r: Option<&'static str>) {
        None
    }
}

} // verus!
