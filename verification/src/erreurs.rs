//! The shape every error of the library shares: a message, an optional
//! cause, and their combination into one report.
use vstd::prelude::*;

verus! {

/// An error that can describe itself.
pub trait TraitErreur {
    fn message(&self) -> String;

    fn cause(&self) -> (r: Option<String>) {
        None
    }

    fn as_string(&self) -> (r: String) {
        let mut texte = self.message();
        match self.cause() {
            Some(cause) => {
                texte.append("\nCause: ");
                texte.append(cause.as_str());
                texte
            },
            None => texte,
        }
    }
}

} // verus!
