use vstd::prelude::*;

verus! {

/// The failure record of a coercion: a human-readable message.
#[derive(Debug)]
pub struct FromJsonError {
    msg: String,
}

impl View for FromJsonError {
    type V = Seq<char>;

    closed spec fn view(&self) -> Seq<char> {
        self.msg@
    }
}

impl FromJsonError {
    /// An error that carries `message`.
    pub fn with_message(message: &str) -> (r: Self)
        ensures
            r@ == message@,
    {
        FromJsonError { msg: message.to_owned() }
    }

    /// The message of this error.
    pub fn message(&self) -> (r: String)
        ensures
            r@ == self@,
    {
        self.msg.clone()
    }
}

} // verus!
