//! Where the application's files live: lookups into the XDG base
//! directories, and the location of the relational store.
use vstd::prelude::*;

use crate::erreurs::TraitErreur;

verus! {

/// The four XDG base directory kinds the application uses.
#[derive(Debug)]
pub enum XDG {
    CACHE,
    CONFIG,
    DATA,
    STATE,
}

impl XDG {
    /// The kind's name, for error reports.
    pub fn nom(&self) -> (r: &'static str)
        ensures
            (match self {
                XDG::CACHE => r@ == "CACHE"@,
                XDG::CONFIG => r@ == "CONFIG"@,
                XDG::DATA => r@ == "DATA"@,
                XDG::STATE => r@ == "STATE"@,
            }),
    {
        match self {
            XDG::CACHE => "CACHE",
            XDG::CONFIG => "CONFIG",
            XDG::DATA => "DATA",
            XDG::STATE => "STATE",
        }
    }
}

#[verifier::external_type_specification]
#[verifier::external_body]
pub struct ExBaseDirectories(xdg::BaseDirectories);

/// Relies on xdg::BaseDirectories::with_prefix: reads the XDG environment
/// and holds the base directories under the application's prefix.
#[verifier::external_body]
fn ouvrir_repertoires() -> xdg::BaseDirectories {
    xdg::BaseDirectories::with_prefix("ludotheque")
}

/// Relies on xdg::BaseDirectories::place_cache_file: creates the leading
/// directories and yields the path where the named cache file belongs.
#[verifier::external_body]
fn placer_fichier_cache(repertoires: &xdg::BaseDirectories, nom: &String) -> Result<
    String,
    String,
> {
    match repertoires.place_cache_file(nom.as_str()) {
        Ok(chemin) => Ok(chemin.to_string_lossy().into_owned()),
        Err(erreur) => Err(format!("{}", erreur)),
    }
}

/// Relies on xdg::BaseDirectories::place_config_file: creates the leading
/// directories and yields the path where the named config file belongs.
#[verifier::external_body]
fn placer_fichier_config(repertoires: &xdg::BaseDirectories, nom: &String) -> Result<
    String,
    String,
> {
    match repertoires.place_config_file(nom.as_str()) {
        Ok(chemin) => Ok(chemin.to_string_lossy().into_owned()),
        Err(erreur) => Err(format!("{}", erreur)),
    }
}

/// Relies on xdg::BaseDirectories::place_data_file: creates the leading
/// directories and yields the path where the named data file belongs.
#[verifier::external_body]
fn placer_fichier_data(repertoires: &xdg::BaseDirectories, nom: &String) -> Result<
    String,
    String,
> {
    match repertoires.place_data_file(nom.as_str()) {
        Ok(chemin) => Ok(chemin.to_string_lossy().into_owned()),
        Err(erreur) => Err(format!("{}", erreur)),
    }
}

/// Relies on xdg::BaseDirectories::place_state_file: creates the leading
/// directories and yields the path where the named state file belongs.
#[verifier::external_body]
fn placer_fichier_state(repertoires: &xdg::BaseDirectories, nom: &String) -> Result<
    String,
    String,
> {
    match repertoires.place_state_file(nom.as_str()) {
        Ok(chemin) => Ok(chemin.to_string_lossy().into_owned()),
        Err(erreur) => Err(format!("{}", erreur)),
    }
}

/// Relies on xdg::BaseDirectories::find_cache_file: the path of the named
/// cache file, when one exists.
#[verifier::external_body]
fn trouver_fichier_cache(repertoires: &xdg::BaseDirectories, nom: &String) -> Option<String> {
    repertoires.find_cache_file(nom.as_str()).map(|c| c.to_string_lossy().into_owned())
}

/// Relies on xdg::BaseDirectories::find_config_file: the path of the named
/// config file, when one exists.
#[verifier::external_body]
fn trouver_fichier_config(repertoires: &xdg::BaseDirectories, nom: &String) -> Option<String> {
    repertoires.find_config_file(nom.as_str()).map(|c| c.to_string_lossy().into_owned())
}

/// Relies on xdg::BaseDirectories::find_data_file: the path of the named
/// data file, when one exists.
#[verifier::external_body]
fn trouver_fichier_data(repertoires: &xdg::BaseDirectories, nom: &String) -> Option<String> {
    repertoires.find_data_file(nom.as_str()).map(|c| c.to_string_lossy().into_owned())
}

/// Relies on xdg::BaseDirectories::find_state_file: the path of the named
/// state file, when one exists.
#[verifier::external_body]
fn trouver_fichier_state(repertoires: &xdg::BaseDirectories, nom: &String) -> Option<String> {
    repertoires.find_state_file(nom.as_str()).map(|c| c.to_string_lossy().into_owned())
}

// The errors of path determination.

/// The base directories could not place the file.
pub struct ErreurRepertoireXDG {
    pub xdg_type: XDG,
    pub erreur: String,
}

impl ErreurRepertoireXDG {
    pub fn as_err<T>(self) -> (r: Result<T, Erreur>)
        ensures
            (r matches Err(e) && e matches Erreur::ErreurRepertoireXDG(inner) && inner == self),
    {
        Err(Erreur::ErreurRepertoireXDG(self))
    }
}

impl TraitErreur for ErreurRepertoireXDG {
    fn message(&self) -> String {
        let mut texte = String::from_str("Impossible d'accéder au répertoires XDG de type ");
        texte.append(self.xdg_type.nom());
        texte.append(".");
        texte
    }

    fn cause(&self) -> Option<String> {
        Some(self.erreur.clone())
    }
}

/// The named file stands in none of the base directories.
pub struct ErreurFichierIntrouvable {
    pub xdg_type: XDG,
    pub nom: String,
}

impl ErreurFichierIntrouvable {
    pub fn as_err<T>(self) -> (r: Result<T, Erreur>)
        ensures
            (r matches Err(e) && e matches Erreur::FichierIntrouvable(inner) && inner == self),
    {
        Err(Erreur::FichierIntrouvable(self))
    }
}

impl TraitErreur for ErreurFichierIntrouvable {
    fn message(&self) -> String {
        let mut texte = String::from_str("Impossible de trouver ");
        texte.append(self.nom.as_str());
        texte.append(" dans le répertoires XDG de type ");
        texte.append(self.xdg_type.nom());
        texte.append(".");
        texte
    }
}

pub enum Erreur {
    ErreurRepertoireXDG(ErreurRepertoireXDG),
    FichierIntrouvable(ErreurFichierIntrouvable),
}

impl TraitErreur for Erreur {
    fn message(&self) -> String {
        match self {
            Erreur::ErreurRepertoireXDG(erreur) => erreur.message(),
            Erreur::FichierIntrouvable(erreur) => erreur.message(),
        }
    }

    fn cause(&self) -> Option<String> {
        match self {
            Erreur::ErreurRepertoireXDG(erreur) => erreur.cause(),
            Erreur::FichierIntrouvable(erreur) => erreur.cause(),
        }
    }
}

/// The path where the named file of the given kind belongs, the leading
/// directories created; every failure is reported as a directory error
/// carrying the requested kind.
pub fn determiner_chemin(nom: String, xdg_type: XDG) -> (r: Result<String, Erreur>)
    ensures
        (match r {
            Err(e) => e matches Erreur::ErreurRepertoireXDG(inner) && inner.xdg_type == xdg_type,
            Ok(_) => true,
        }),
{
    let repertoires = ouvrir_repertoires();
    let place = match &xdg_type {
        XDG::CACHE => placer_fichier_cache(&repertoires, &nom),
        XDG::CONFIG => placer_fichier_config(&repertoires, &nom),
        XDG::DATA => placer_fichier_data(&repertoires, &nom),
        XDG::STATE => placer_fichier_state(&repertoires, &nom),
    };
    match place {
        Ok(chemin) => Ok(chemin),
        Err(erreur) => ErreurRepertoireXDG { xdg_type, erreur }.as_err(),
    }
}

/// The path of the named file of the given kind, when it exists; an absent
/// file is reported as not found, under the requested name and kind.
pub fn trouver_chemin(nom: String, xdg_type: XDG) -> (r: Result<String, Erreur>)
    ensures
        (match r {
            Err(e) => e matches Erreur::FichierIntrouvable(inner) && inner.nom == nom
                && inner.xdg_type == xdg_type,
            Ok(_) => true,
        }),
{
    let repertoires = ouvrir_repertoires();
    let trouve = match &xdg_type {
        XDG::CACHE => trouver_fichier_cache(&repertoires, &nom),
        XDG::CONFIG => trouver_fichier_config(&repertoires, &nom),
        XDG::DATA => trouver_fichier_data(&repertoires, &nom),
        XDG::STATE => trouver_fichier_state(&repertoires, &nom),
    };
    match trouve {
        Some(chemin) => Ok(chemin),
        None => ErreurFichierIntrouvable { xdg_type, nom }.as_err(),
    }
}

// The location of the relational store.

/// The store file could not be located.
pub struct ErreurLocalisationDB {
    pub erreur: Erreur,
}

impl ErreurLocalisationDB {
    pub fn as_err<T>(self) -> (r: Result<T, ErreurDB>)
        ensures
            (r matches Err(e) && e matches ErreurDB::ErreurLocalisationDB(inner) && inner
                == self),
    {
        Err(ErreurDB::ErreurLocalisationDB(self))
    }
}

impl TraitErreur for ErreurLocalisationDB {
    fn message(&self) -> String {
        String::from_str("Impossible de localiser la base de données.")
    }

    fn cause(&self) -> Option<String> {
        Some(self.erreur.as_string())
    }
}

pub enum ErreurDB {
    ErreurLocalisationDB(ErreurLocalisationDB),
}

impl TraitErreur for ErreurDB {
    fn message(&self) -> String {
        match self {
            ErreurDB::ErreurLocalisationDB(erreur) => erreur.message(),
        }
    }

    fn cause(&self) -> Option<String> {
        match self {
            ErreurDB::ErreurLocalisationDB(erreur) => erreur.cause(),
        }
    }
}

/// The URL under which the relational store is opened: the store file in the
/// XDG data directory, behind the sqlite scheme.
pub fn obtenir_db_url() -> (r: Result<String, ErreurDB>)
    ensures
        (match r {
            Ok(u) => u@.len() >= 9 && u@.subrange(0, 9) == "sqlite://"@,
            Err(e) => e matches ErreurDB::ErreurLocalisationDB(_),
        }),
{
    match determiner_chemin(String::from_str("games.db"), XDG::DATA) {
        Ok(chemin) => {
            let mut url = String::from_str("sqlite://");
            url.append(chemin.as_str());
            proof {
                reveal_strlit("sqlite://");
                assert(url@.subrange(0, 9) =~= "sqlite://"@);
            }
            Ok(url)
        },
        Err(erreur) => ErreurLocalisationDB { erreur }.as_err(),
    }
}

} // verus!
