//! Decoded commands and what they ask for.

use vstd::prelude::*;
use vstd::string::StringExecFns;

verus! {

/// A decoded command: a name and its ordered arguments.
#[derive(Debug, PartialEq, Eq)]
pub struct Action {
    pub cmd: String,
    pub args: Vec<String>,
}

/// Mathematical value of an [`Action`].
pub struct ActionView {
    pub cmd: Seq<char>,
    pub args: Seq<Seq<char>>,
}

impl View for Action {
    type V = ActionView;

    open spec fn view(&self) -> ActionView {
        ActionView { cmd: self.cmd@, args: self.args.deep_view() }
    }
}

/// What a command asks the dispatcher to do.
#[derive(Clone, Copy, PartialEq, Eq, Debug, Structural)]
pub enum CommandKind {
    /// Nothing.
    Noop,
    /// End the session.
    Done,
    /// Render the first argument.
    Render,
    /// A `render` without the content to render.
    MissingArgument,
    /// A name that the protocol does not know.
    Unknown,
}

impl ActionView {
    /// The action that stands in for a line that could not be decoded.
    pub open spec fn noop() -> ActionView {
        ActionView { cmd: "noop"@, args: Seq::empty() }
    }

    /// What this action asks for.
    pub open spec fn kind(self) -> CommandKind {
        if self.cmd == "noop"@ {
            CommandKind::Noop
        } else if self.cmd == "done"@ {
            CommandKind::Done
        } else if self.cmd == "render"@ {
            if self.args.len() > 0 {
                CommandKind::Render
            } else {
                CommandKind::MissingArgument
            }
        } else {
            CommandKind::Unknown
        }
    }
}

/// Whether `text` reads exactly as `literal`.
fn text_is(text: &String, literal: &str) -> (r: bool)
    ensures
        r == (text@ == literal@),
{
    let wanted = String::from_str(literal);
    *text == wanted
}

impl Action {
    /// The action that stands in for a line that could not be decoded.
    pub fn noop() -> (r: Action)
        ensures
            r@ == ActionView::noop(),
    {
        let r = Action { cmd: String::from_str("noop"), args: Vec::new() };
        assert(r.args.deep_view() =~= Seq::<Seq<char>>::empty());
        r
    }

    /// What this action asks for.
    pub fn kind(&self) -> (r: CommandKind)
        ensures
            r == self@.kind(),
    {
        if text_is(&self.cmd, "noop") {
            CommandKind::Noop
        } else if text_is(&self.cmd, "done") {
            CommandKind::Done
        } else if text_is(&self.cmd, "render") {
            if self.args.len() > 0 {
                CommandKind::Render
            } else {
                CommandKind::MissingArgument
            }
        } else {
            CommandKind::Unknown
        }
    }
}

/// The names that the protocol knows are pairwise different, so each action
/// has the kind that its name spells.
pub proof fn lemma_known_names(args: Seq<Seq<char>>)
    ensures
        (ActionView { cmd: "noop"@, args }).kind() == CommandKind::Noop,
        (ActionView { cmd: "done"@, args }).kind() == CommandKind::Done,
        (ActionView { cmd: "render"@, args }).kind() == if args.len() > 0 {
            CommandKind::Render
        } else {
            CommandKind::MissingArgument
        },
{
    reveal_strlit("noop");
    reveal_strlit("done");
    reveal_strlit("render");
    assert("noop"@[0] != "done"@[0]);
}

} // verus!
