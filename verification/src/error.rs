use vstd::prelude::*;

verus! {

/// The library's plain error: a human-readable message and nothing else.
pub struct MeiliError {
    pub message: String,
}

impl MeiliError {
    /// An error carrying exactly `message`.
    pub fn new(message: &str) -> (e: MeiliError)
        ensures
            e.message@ == message@,
    {
        MeiliError { message: message.to_owned() }
    }

    /// The same error as [`MeiliError::new`], on the heap.
    pub fn new_boxed(message: &str) -> (e: Box<MeiliError>)
        ensures
            e.message@ == message@,
    {
        Box::new(MeiliError::new(message))
    }

    /// What the error displays: its message alone.
    pub fn to_string(&self) -> (s: String)
        ensures
            s@ == self.message@,
    {
        self.message.clone()
    }

    /// The debugging form: `MeiliError { message: <message> }`.
    pub fn debug_string(&self) -> (s: String)
        ensures
            s@ == "MeiliError { message: "@ + self.message@ + " }"@,
    {
        let mut s = String::from_str("MeiliError { message: ");
        s.append(self.message.as_str());
        s.append(" }");
        s
    }
}

} // verus!
