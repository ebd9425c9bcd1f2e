//! The callable host object that script invokes synchronously: the
//! four-method dynamic-invocation capability the script engine's automation
//! model requires. It exposes a single anonymous default invocation that
//! takes one text argument, acknowledges it, and forwards the decoded text
//! onto the owning session's inbound queue.

use vstd::prelude::*;
use vstd::string::StringExecFns;

use crate::cell::{Payload, ValueCell};
use crate::session::{accepts_ops, model_of, SessionModel, SessionTable};

verus! {

/// How an invocation can fail. A missing or mismatched argument is a
/// programming error on the script side and faults as a typed error; a
/// severed channel means the owning session was destroyed concurrently
/// with an in-flight call, which is fatal for this object.
#[derive(Clone, Copy, PartialEq, Eq, Structural, Debug)]
pub enum HostObjectError {
    /// The object publishes no type information.
    NoTypeInfo,
    /// The invocation did not carry exactly one argument.
    MissingArgument,
    /// The one argument was not of the text variant.
    ArgumentNotText,
    /// The owning session no longer accepts messages.
    ChannelSevered,
}

/// The acknowledgement text an invocation answers with, embedding the
/// received argument.
pub open spec fn ack_text(arg: Seq<char>) -> Seq<char> {
    "Successful sync call functionWithStringArgument, and the argument is \""@ + arg + "\"."@
}

/// The callable host object bound into the script global namespace; it
/// holds the sender half of its session's message channel as the handle of
/// the session it forwards to.
pub struct FunctionWithStringArgument {
    session: usize,
}

impl FunctionWithStringArgument {
    /// The handle of the session whose queue this object feeds.
    pub closed spec fn session(self) -> usize {
        self.session
    }

    pub fn new(session: usize) -> (obj: FunctionWithStringArgument)
        ensures
            obj.session() == session,
    {
        FunctionWithStringArgument { session }
    }

    /// Enumerate type information: this object always reports that none is
    /// available.
    pub fn get_type_info_count(&self) -> (n: u32)
        ensures
            n == 0,
    {
        0
    }

    /// Fetching type information always fails, since none exists.
    pub fn get_type_info(&self) -> (r: Result<(), HostObjectError>)
        ensures
            r == Err::<(), HostObjectError>(HostObjectError::NoTypeInfo),
    {
        Err(HostObjectError::NoTypeInfo)
    }

    /// Resolving a name always succeeds and resolves nothing: the object
    /// exposes a single anonymous default invocation.
    pub fn get_ids_of_names(&self) -> (r: Result<(), HostObjectError>)
        ensures
            r == Ok::<(), HostObjectError>(()),
    {
        Ok(())
    }

    /// The synchronous invocation from script. With exactly one text
    /// argument it answers an owned text cell acknowledging the argument
    /// and forwards the decoded text onto the session's queue; with a
    /// missing or mismatched argument it faults without touching the
    /// queue; and when the owning session is gone the send fails as a
    /// severed channel. Runs on the engine thread: no blocking work.
    pub fn invoke(&self, table: &mut SessionTable, args: &Vec<ValueCell>) -> (r: Result<
        ValueCell,
        HostObjectError,
    >)
        ensures
            args@.len() != 1 ==> ({
                &&& r == Err::<ValueCell, HostObjectError>(HostObjectError::MissingArgument)
                &&& final(table)@ == old(table)@
            }),
            args@.len() == 1 && !(args@[0].payload() is Text) ==> ({
                &&& r == Err::<ValueCell, HostObjectError>(HostObjectError::ArgumentNotText)
                &&& final(table)@ == old(table)@
            }),
            args@.len() == 1 ==> (args@[0].payload() matches Payload::Text(s) ==> (if accepts_ops(
                old(table)@,
                self.session(),
            ) {
                &&& r is Ok
                &&& (r matches Ok(cell) ==> cell.is_owned())
                &&& (r matches Ok(cell) ==> (cell.payload() matches Payload::Text(out) && out@
                    == ack_text(s@)))
                &&& final(table)@ == old(table)@.update(
                    self.session() - 1,
                    (SessionModel {
                        messages: model_of(old(table)@, self.session()).messages.push(s),
                        ..model_of(old(table)@, self.session())
                    }),
                )
            } else {
                &&& r == Err::<ValueCell, HostObjectError>(HostObjectError::ChannelSevered)
                &&& final(table)@ == old(table)@
            })),
    {
        if args.len() != 1 {
            return Err(HostObjectError::MissingArgument);
        }
        let arg = match args[0].text() {
            Some(s) => s,
            None => {
                return Err(HostObjectError::ArgumentNotText);
            },
        };
        let forwarded = arg.clone();
        if !table.enqueue_message(self.session, forwarded) {
            return Err(HostObjectError::ChannelSevered);
        }
        let mut ack = String::from_str(
            "Successful sync call functionWithStringArgument, and the argument is \"",
        );
        ack.append(arg.as_str());
        ack.append("\".");
        Ok(ValueCell::from_text(ack))
    }
}

} // verus!
