use vstd::prelude::*;

use super::error::{KsforgeError, Result};
use crate::text::{copy_str, is_blank, is_blank_str, trim};

verus! {

/// A software change request, the first-class input to every capability.
#[derive(Debug)]
pub struct ChangeRequest {
    pub text: String,
}

impl View for ChangeRequest {
    type V = Seq<char>;

    open spec fn view(&self) -> Seq<char> {
        self.text@
    }
}

impl DeepView for ChangeRequest {
    type V = Seq<char>;

    open spec fn deep_view(&self) -> Seq<char> {
        self.text@
    }
}

impl Clone for ChangeRequest {
    fn clone(&self) -> (r: Self)
        ensures
            r@ == self@,
    {
        ChangeRequest { text: self.text.clone() }
    }
}

impl ChangeRequest {
    /// Accepts any text that is not blank; a blank one is a usage error.
    pub fn from_text(text: &str) -> (r: Result<ChangeRequest>)
        ensures
            r is Err <==> trim(text@).len() == 0,
            r matches Ok(c) ==> c@ == text@,
            r matches Err(e) ==> e is Usage,
    {
        if is_blank_str(text) {
            return Err(KsforgeError::Usage(copy_str("change request text must not be empty")));
        }
        Ok(ChangeRequest { text: copy_str(text) })
    }

    /// The change request a file holds, given the path and what reading it
    /// gave (its text, or the text of the error): a read error is a usage
    /// error naming the file; otherwise as [`ChangeRequest::from_text`].
    pub fn from_file(path: &str, read: std::result::Result<String, String>) -> (r: Result<ChangeRequest>)
        ensures
            match read {
                Err(e) => r matches Err(KsforgeError::Usage(m)) && m@ == "failed to read change request file "@
                    + path@ + ": "@ + e@,
                Ok(text) => (r is Err <==> trim(text@).len() == 0) && (r matches Ok(c) ==> c@ == text@),
            },
    {
        match read {
            Err(e) => {
                let mut m = copy_str("failed to read change request file ");
                crate::text::push_str(&mut m, path);
                crate::text::push_str(&mut m, ": ");
                crate::text::push_str(&mut m, e.as_str());
                Err(KsforgeError::Usage(m))
            },
            Ok(text) => ChangeRequest::from_text(text.as_str()),
        }
    }
}

} // verus!
