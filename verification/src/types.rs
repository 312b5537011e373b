use crate::text::{joined, same_text};
use vstd::prelude::*;
use vstd::string::*;

verus! {

/// Whether an operation sends or receives messages.
#[derive(Debug, Clone, Copy, PartialEq, Eq, Hash)]
pub enum OperationAction {
    /// Send/publish action
    Send,
    /// Receive/subscribe action
    Receive,
}

impl OperationAction {
    /// The action's name in a document.
    pub open spec fn name(self) -> Seq<char> {
        match self {
            OperationAction::Send => "send"@,
            OperationAction::Receive => "receive"@,
        }
    }

    /// The action's name in a document: `send` or `receive`.
    pub fn as_str(&self) -> (text: &'static str)
        ensures
            text@ == self.name(),
    {
        match self {
            OperationAction::Send => "send",
            OperationAction::Receive => "receive",
        }
    }

    /// The action that `s` names. Any text but `send` and `receive` is
    /// refused, with a message that quotes it.
    pub fn try_from(s: &str) -> (result: Result<Self, String>)
        ensures
            s@ == "send"@ ==> result == Ok::<Self, String>(OperationAction::Send),
            s@ == "receive"@ ==> result == Ok::<Self, String>(OperationAction::Receive),
            s@ != "send"@ && s@ != "receive"@ ==> result is Err && result->Err_0@
                == "Invalid operation action: '"@ + s@ + "'. Expected 'send' or 'receive'"@,
    {
        proof {
            reveal_strlit("send");
            reveal_strlit("receive");
            assert("send"@.len() != "receive"@.len());
        }
        if same_text(s, "send") {
            Ok(OperationAction::Send)
        } else if same_text(s, "receive") {
            Ok(OperationAction::Receive)
        } else {
            let mut text = joined("Invalid operation action: '", s);
            text.append("'. Expected 'send' or 'receive'");
            Err(text)
        }
    }

    /// The action's name as an owned string.
    pub fn to_string(&self) -> (text: String)
        ensures
            text@ == self.name(),
    {
        String::from_str(self.as_str())
    }

    /// Reading an action's name gives the action back.
    pub proof fn lemma_name_round_trip(self)
        ensures
            self.name() == "send"@ <==> self == OperationAction::Send,
            self.name() == "receive"@ <==> self == OperationAction::Receive,
    {
        reveal_strlit("send");
        reveal_strlit("receive");
        assert("send"@.len() != "receive"@.len());
    }
}

/// The AsyncAPI version that documents are written for.
pub const ASYNCAPI_VERSION: &'static str = "3.0.0";

} // verus!
