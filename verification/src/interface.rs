//! The behaviour that an application supplies, and the one trampoline that
//! does work of its own before it forwards: the delivery of mail.

use vstd::prelude::*;
use crate::mail::{all_decodable, decode_mail, is_first_fault, mailbox_of, views, Mailbox};
use crate::message::{DecodeFault, Envelope, MessageValue};

verus! {

/// Callbacks that are called by the host. Each is handed the application
/// state that the re-entry value stands for.
pub trait MoosInterface: Sized {
    /// What `on_new_mail` does with a mailbox: how the state after relates
    /// to the state before, and what is answered to the host. An application
    /// may say this of itself; unless it does, nothing is claimed.
    open spec fn handles_mail(pre: Self, d: Map<Seq<char>, MessageValue>, post: Self, handled: bool) -> bool {
        true
    }

    /// The periodic tick.
    fn iterate(&mut self) -> bool;

    /// Called once, before the first tick.
    fn on_start_up(&mut self) -> bool;

    /// Called on each connection to the host's database.
    fn on_connect_to_server(&mut self) -> bool;

    /// Called when new mail is received from the host's database.
    fn on_new_mail(&mut self, d: Mailbox) -> (handled: bool)
        ensures
            Self::handles_mail(*old(self), d@, *final(self), handled),
    ;

    /// The slot number of the handle that this application rides on.
    fn base_app(&mut self) -> usize;

    /// Called when new mail is received from the host's database. The batch
    /// is decoded into a mailbox and passed into `on_new_mail`, whose answer
    /// is returned. A batch that does not decode is not passed on: its first
    /// fault is returned and the state is left as it was.
    fn on_new_raw_mail(&mut self, mail: &[Envelope]) -> (handled: Result<bool, DecodeFault>)
        ensures
            match handled {
                Ok(ok) => {
                    &&& all_decodable(views(mail@))
                    &&& Self::handles_mail(*old(self), mailbox_of(views(mail@)), *final(self), ok)
                },
                Err(fault) => is_first_fault(views(mail@), fault) && *final(self) == *old(self),
            },
    {
        match decode_mail(mail) {
            Ok(data) => Ok(self.on_new_mail(data)),
            Err(fault) => Err(fault),
        }
    }
}

} // verus!
