//! The application's configuration: users, emulator mappings with their
//! recognized extensions, the game directory, the search depth, and the
//! target translation language.
use vstd::prelude::*;

verus! {

#[derive(Debug, PartialEq)]
pub struct LudothequeConfig {
    pub utilisateurs: Vec<Utilisateur>,
    pub emulateurs: Vec<Emulateur>,
    pub repertoire_jeux: Option<String>,
    pub repertoire_donnees: Option<String>,
    pub profondeur_recherche: Option<u32>,
    pub langue: String,
}

#[derive(Debug, PartialEq)]
pub struct Utilisateur {
    pub id: u32,
    pub nom: String,
    pub pseudonyme: String,
}

#[derive(Debug, PartialEq)]
pub struct Emulateur {
    pub nom: String,
    pub commande: String,
    pub extensions: Vec<String>,
}

/// The configuration used until one is written: one placeholder user, no
/// emulators, and the directories the caller determined from the system.
pub fn config_par_defaut(
    repertoire_jeux: Option<String>,
    repertoire_donnees: Option<String>,
) -> (r: LudothequeConfig)
    ensures
        r.utilisateurs@.len() == 1,
        r.utilisateurs@[0].id == 0,
        r.utilisateurs@[0].nom@ == "Utilisateur 0"@,
        r.utilisateurs@[0].pseudonyme@ == "user0"@,
        r.emulateurs@.len() == 0,
        r.repertoire_jeux == repertoire_jeux,
        r.repertoire_donnees == repertoire_donnees,
        r.profondeur_recherche is None,
        r.langue@ == "Français"@,
{
    let mut utilisateurs: Vec<Utilisateur> = Vec::new();
    utilisateurs.push(
        Utilisateur {
            id: 0,
            nom: String::from_str("Utilisateur 0"),
            pseudonyme: String::from_str("user0"),
        },
    );
    LudothequeConfig {
        utilisateurs,
        emulateurs: Vec::new(),
        repertoire_jeux,
        repertoire_donnees,
        profondeur_recherche: None,
        langue: String::from_str("Français"),
    }
}

} // verus!
