//! JSON text production — string literals with their escapes — and the
//! errors of reading and writing the application's JSON files.
use vstd::prelude::*;

use crate::chemins;
use crate::erreurs::TraitErreur;

verus! {

/// The escape of one character inside a JSON string literal: quotes and
/// backslashes are escaped, the common controls take their short names, and
/// any other character stands as itself.
pub open spec fn echappe_json_car(c: char) -> Seq<char> {
    if c == '"' {
        seq!['\\', '"']
    } else if c == '\\' {
        seq!['\\', '\\']
    } else if c == '\n' {
        seq!['\\', 'n']
    } else if c == '\r' {
        seq!['\\', 'r']
    } else if c == '\t' {
        seq!['\\', 't']
    } else {
        seq![c]
    }
}

/// The text with every character escaped for a JSON string literal.
pub open spec fn echappe_json(s: Seq<char>) -> Seq<char>
    decreases s.len(),
{
    if s.len() == 0 {
        Seq::empty()
    } else {
        echappe_json(s.drop_last()) + echappe_json_car(s.last())
    }
}

/// A text as one JSON string literal.
pub open spec fn texte_json(s: Seq<char>) -> Seq<char> {
    seq!['"'] + echappe_json(s) + seq!['"']
}

/// Renders a text as a quoted JSON string literal.
pub fn guillemeter_json(s: &str) -> (r: String)
    ensures
        r@ == texte_json(s@),
{
    proof {
        reveal_strlit("\"");
        assert("\""@ =~= seq!['"']);
    }
    let longueur = s.unicode_len();
    let mut sortie = String::from_str("\"");
    let mut i: usize = 0;
    proof {
        assert(echappe_json(s@.subrange(0, 0)) =~= Seq::<char>::empty());
        assert(sortie@ =~= seq!['"'] + echappe_json(s@.subrange(0, 0)));
    }
    while i < longueur
        invariant
            i <= longueur,
            longueur == s@.len(),
            sortie@ == seq!['"'] + echappe_json(s@.subrange(0, i as int)),
        decreases longueur - i,
    {
        proof {
            let avant = s@.subrange(0, i as int);
            let apres = s@.subrange(0, i as int + 1);
            assert(apres.drop_last() =~= avant);
            assert(apres.last() == s@[i as int]);
        }
        let c = s.get_char(i);
        if c == '"' {
            sortie.append("\\\"");
            proof {
                reveal_strlit("\\\"");
                assert("\\\""@ =~= seq!['\\', '"']);
            }
        } else if c == '\\' {
            sortie.append("\\\\");
            proof {
                reveal_strlit("\\\\");
                assert("\\\\"@ =~= seq!['\\', '\\']);
            }
        } else if c == '\n' {
            sortie.append("\\n");
            proof {
                reveal_strlit("\\n");
                assert("\\n"@ =~= seq!['\\', 'n']);
            }
        } else if c == '\r' {
            sortie.append("\\r");
            proof {
                reveal_strlit("\\r");
                assert("\\r"@ =~= seq!['\\', 'r']);
            }
        } else if c == '\t' {
            sortie.append("\\t");
            proof {
                reveal_strlit("\\t");
                assert("\\t"@ =~= seq!['\\', 't']);
            }
        } else {
            sortie.append(s.substring_char(i, i + 1));
            proof {
                assert(s@.subrange(i as int, i as int + 1) =~= seq![s@[i as int]]);
            }
        }
        proof {
            assert(sortie@ =~= seq!['"'] + echappe_json(s@.subrange(0, i as int + 1)));
        }
        i += 1;
    }
    proof {
        assert(s@.subrange(0, s@.len() as int) =~= s@);
    }
    sortie.append("\"");
    proof {
        assert(sortie@ =~= texte_json(s@));
    }
    sortie
}

// The errors of the application's JSON files. The reading and writing
// itself is input and output around the library; these are the shapes in
// which its failures are reported.

/// A value could not be rendered for the named file.
pub struct ErreurSerialisation {
    pub fichier: String,
    pub erreur: String,
}

impl ErreurSerialisation {
    pub fn as_err<T>(self) -> (r: Result<T, Erreur>)
        ensures
            (r matches Err(e) && e matches Erreur::ErreurSerialisation(inner) && inner == self),
    {
        Err(Erreur::ErreurSerialisation(self))
    }
}

impl TraitErreur for ErreurSerialisation {
    fn message(&self) -> String {
        let mut texte = String::from_str("Impossible de sérialiser ");
        texte.append(self.fichier.as_str());
        texte.append(".");
        texte
    }

    fn cause(&self) -> Option<String> {
        Some(self.erreur.clone())
    }
}

/// The named file could not be written.
pub struct ErreurPermission {
    pub fichier: String,
    pub erreur: String,
}

impl ErreurPermission {
    pub fn as_err<T>(self) -> (r: Result<T, Erreur>)
        ensures
            (r matches Err(e) && e matches Erreur::ErreurPermission(inner) && inner == self),
    {
        Err(Erreur::ErreurPermission(self))
    }
}

impl TraitErreur for ErreurPermission {
    fn message(&self) -> String {
        let mut texte = String::from_str("Impossible d'écrire dans ");
        texte.append(self.fichier.as_str());
        texte.append(".");
        texte
    }

    fn cause(&self) -> Option<String> {
        Some(self.erreur.clone())
    }
}

/// The named file does not hold the expected JSON shape.
pub struct ErreurJsonInvalide {
    pub fichier: String,
    pub erreur: String,
}

impl ErreurJsonInvalide {
    pub fn as_err<T>(self) -> (r: Result<T, Erreur>)
        ensures
            (r matches Err(e) && e matches Erreur::JsonInvalide(inner) && inner == self),
    {
        Err(Erreur::JsonInvalide(self))
    }
}

impl TraitErreur for ErreurJsonInvalide {
    fn message(&self) -> String {
        let mut texte = String::from_str("Le fichier ");
        texte.append(self.fichier.as_str());
        texte.append(" ne contient pas le JSON attendu.");
        texte
    }

    fn cause(&self) -> Option<String> {
        Some(self.erreur.clone())
    }
}

/// The named file could not be placed for writing.
pub struct ErreurEnregistrementImpossible {
    pub fichier: String,
    pub erreur: chemins::Erreur,
}

impl ErreurEnregistrementImpossible {
    pub fn as_err<T>(self) -> (r: Result<T, Erreur>)
        ensures
            (r matches Err(e) && e matches Erreur::EnregistrementImpossible(inner) && inner
                == self),
    {
        Err(Erreur::EnregistrementImpossible(self))
    }
}

impl TraitErreur for ErreurEnregistrementImpossible {
    fn message(&self) -> String {
        let mut texte = String::from_str("Impossible d'enregistrer ");
        texte.append(self.fichier.as_str());
        texte.append(".");
        texte
    }

    fn cause(&self) -> Option<String> {
        Some(self.erreur.as_string())
    }
}

/// The named file could not be found for reading.
pub struct ErreurChargementImpossible {
    pub fichier: String,
    pub erreur: chemins::Erreur,
}

impl ErreurChargementImpossible {
    pub fn as_err<T>(self) -> (r: Result<T, Erreur>)
        ensures
            (r matches Err(e) && e matches Erreur::ChargementImpossible(inner) && inner == self),
    {
        Err(Erreur::ChargementImpossible(self))
    }
}

impl TraitErreur for ErreurChargementImpossible {
    fn message(&self) -> String {
        let mut texte = String::from_str("Impossible de charger ");
        texte.append(self.fichier.as_str());
        texte.append(".");
        texte
    }

    fn cause(&self) -> Option<String> {
        Some(self.erreur.as_string())
    }
}

pub enum Erreur {
    ErreurSerialisation(ErreurSerialisation),
    ErreurPermission(ErreurPermission),
    JsonInvalide(ErreurJsonInvalide),
    EnregistrementImpossible(ErreurEnregistrementImpossible),
    ChargementImpossible(ErreurChargementImpossible),
}

impl TraitErreur for Erreur {
    fn message(&self) -> String {
        match self {
            Erreur::ErreurSerialisation(erreur) => erreur.message(),
            Erreur::ErreurPermission(erreur) => erreur.message(),
            Erreur::JsonInvalide(erreur) => erreur.message(),
            Erreur::EnregistrementImpossible(erreur) => erreur.message(),
            Erreur::ChargementImpossible(erreur) => erreur.message(),
        }
    }

    fn cause(&self) -> Option<String> {
        match self {
            Erreur::ErreurSerialisation(erreur) => erreur.cause(),
            Erreur::ErreurPermission(erreur) => erreur.cause(),
            Erreur::JsonInvalide(erreur) => erreur.cause(),
            Erreur::EnregistrementImpossible(erreur) => erreur.cause(),
            Erreur::ChargementImpossible(erreur) => erreur.cause(),
        }
    }
}

} // verus!
