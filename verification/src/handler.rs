//! The transport that carries an encoded command to the card and brings the
//! response back.

use crate::text::{decimal, format_decimal};
use vstd::prelude::*;
use vstd::string::StringExecFns;

verus! {

/// Why a handler could not deliver a response.
#[derive(Debug)]
pub enum HandleError {
    /// The buffer is too small to write the response.
    /// Reallocate with the capacity and retry.
    NotEnoughBuffer(usize),
    /// Failed to communicate through the physical layer, with what the
    /// hardware or the system said of it.
    Nfc(String),
}

/// The text that describes a failure of the transport.
pub open spec fn handle_error_text(error: HandleError) -> Seq<char> {
    match error {
        HandleError::NotEnoughBuffer(size) => "The buffer is too small to write the response. (needs "@
            + decimal(size as nat) + " bytes)"@,
        HandleError::Nfc(text) => text@,
    }
}

impl HandleError {
    /// Describes the failure.
    pub fn message(&self) -> (s: String)
        ensures
            s@ == handle_error_text(*self),
    {
        match self {
            HandleError::NotEnoughBuffer(size) => {
                let mut s = String::from_str(
                    "The buffer is too small to write the response. (needs ",
                );
                let needed = format_decimal(*size);
                s.append(needed.as_str());
                s.append(" bytes)");
                s
            },
            HandleError::Nfc(text) => text.clone(),
        }
    }
}

/// A handler to handle an APDU command and receive a response in a specific context.
pub trait HandlerInCtx<Ctx = ()> {
    /// What the handler promises, as a relation between what it is given,
    /// what it leaves in the response buffer and what it returns. A handler
    /// that states nothing promises nothing.
    open spec fn handles(
        &self,
        ctx: Ctx,
        command: Seq<u8>,
        before: Seq<u8>,
        after: Seq<u8>,
        result: Result<usize, HandleError>,
    ) -> bool {
        true
    }

    /// Handles the APDU command in a specific context.
    /// Implementations must transmit the command to the card through a reader,
    /// then receive the response from them, returning length of the data written.
    fn handle_in_ctx(&self, ctx: Ctx, command: &[u8], response: &mut [u8]) -> (result: Result<
        usize,
        HandleError,
    >)
        ensures
            self.handles(ctx, command@, old(response)@, final(response)@, result),
    ;
}

/// A handler to handle an APDU command and receive a response.
pub trait Handler: HandlerInCtx<()> {
    /// Handles the APDU command.
    /// Implementations must transmit the command to the card through a reader,
    /// then receive the response from them, returning length of the data written.
    fn handle(&self, command: &[u8], response: &mut [u8]) -> (result: Result<usize, HandleError>)
        ensures
            self.handles((), command@, old(response)@, final(response)@, result),
    {
        self.handle_in_ctx((), command, response)
    }
}

} // verus!
