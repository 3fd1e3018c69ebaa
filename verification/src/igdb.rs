//! The remote metadata source: the request shapes the library builds for
//! it, the client and token records around its authentication, and the
//! errors of talking to it. The network itself stays outside the library;
//! callers send the built requests and hand the parsed games back.
use vstd::prelude::*;

use crate::erreurs::TraitErreur;
use crate::objet::JeuIGDB;
use crate::sql::chiffres_nat;
use crate::sql::texte_u32;

verus! {

/// The credentials under which the remote source is addressed.
#[derive(Debug, PartialEq)]
pub struct Client {
    pub client_id: String,
    pub client_secret: String,
}

/// An access token and its lifetime, as granted.
#[derive(Debug, PartialEq)]
pub struct Token {
    pub access_token: String,
    pub expires_in: u64,
    pub token_type: String,
}

/// The moment a granted token expires.
#[derive(Debug, PartialEq)]
pub struct Expire {
    pub expires_at: u64,
}

/// The placeholder credentials written for the user to fill in.
pub fn client_modele() -> (r: Client)
    ensures
        r.client_id@ == "your_client_id"@,
        r.client_secret@ == "your_client_secret"@,
{
    Client {
        client_id: String::from_str("your_client_id"),
        client_secret: String::from_str("your_client_secret"),
    }
}

/// When a token granted now expires.
pub fn determiner_expire(maintenant: u64, token: &Token) -> (r: Expire)
    requires
        maintenant + token.expires_in <= u64::MAX,
    ensures
        r.expires_at == maintenant + token.expires_in,
{
    Expire { expires_at: maintenant + token.expires_in }
}

/// Whether a token expiring at `expiration` is still valid now.
pub fn verifier_token(maintenant: u64, expiration: u64) -> (r: bool)
    ensures
        r == (maintenant <= expiration),
{
    if maintenant > expiration {
        false
    } else {
        true
    }
}

/// A connected client: the credentials a request carries.
#[derive(Debug, PartialEq)]
pub struct ClientIGDB {
    pub client_id: String,
    pub access_token: String,
}

impl ClientIGDB {
    /// A client from an id and a granted access token.
    pub fn new(client_id: String, access_token: String) -> (r: ClientIGDB)
        ensures
            r.client_id == client_id,
            r.access_token == access_token,
    {
        ClientIGDB { client_id, access_token }
    }
}

/// One request to the remote source: its endpoint and its body.
#[derive(Debug)]
pub struct Requete<T> {
    pub endpoint: String,
    pub corps: String,
    pub resultat: Option<T>,
}

/// The fields every game query asks for: the full game shape in one call.
pub open spec fn champs_jeu() -> Seq<char> {
    "fields name, slug, alternative_names.*, storyline, summary, first_release_date, collection.*, franchise.*, category, genres.*, themes.*, keywords.*, platforms, remakes, remasters, similar_games, rating, rating_count, cover.*, artworks.*, screenshots.*, videos.*, updated_at;"@
}

/// The body of a title search: the best single match for the title, with an
/// optional platform filter.
pub open spec fn corps_recherche(nom: Seq<char>, plateforme_id: Option<u32>) -> Seq<char> {
    "search \""@ + nom + "\";"@ + champs_jeu() + "limit 1;"@ + match plateforme_id {
        Some(id) => "where platforms = ("@ + chiffres_nat(id as nat) + ")"@,
        None => Seq::empty(),
    }
}

/// The body of an id fetch: the one game under that id.
pub open spec fn corps_recuperation(id: u32) -> Seq<char> {
    champs_jeu() + "limit 1;"@ + "where id = "@ + chiffres_nat(id as nat) + ";"@
}

/// Builds the search request resolving a working title to one game.
pub fn requete_trouver_jeu(nom: String, plateforme_id: Option<u32>) -> (r: Requete<
    Vec<JeuIGDB>,
>)
    ensures
        r.endpoint@ == "games/"@,
        r.corps@ == corps_recherche(nom@, plateforme_id),
        r.resultat is None,
{
    let mut corps = String::from_str("search \"");
    corps.append(nom.as_str());
    corps.append("\";");
    corps.append(
        "fields name, slug, alternative_names.*, storyline, summary, first_release_date, collection.*, franchise.*, category, genres.*, themes.*, keywords.*, platforms, remakes, remasters, similar_games, rating, rating_count, cover.*, artworks.*, screenshots.*, videos.*, updated_at;",
    );
    corps.append("limit 1;");
    match plateforme_id {
        Some(id) => {
            corps.append("where platforms = (");
            let chiffres = texte_u32(id);
            corps.append(chiffres.as_str());
            corps.append(")");
        },
        None => {
            proof {
                assert(corps@ =~= corps_recherche(nom@, plateforme_id));
            }
        },
    }
    Requete { endpoint: String::from_str("games/"), corps, resultat: None }
}

/// Builds the fetch request recovering the one game under an explicit id.
pub fn requete_recuperer_jeu(id: u32) -> (r: Requete<Vec<JeuIGDB>>)
    ensures
        r.endpoint@ == "games/"@,
        r.corps@ == corps_recuperation(id),
        r.resultat is None,
{
    let mut corps = String::from_str(
        "fields name, slug, alternative_names.*, storyline, summary, first_release_date, collection.*, franchise.*, category, genres.*, themes.*, keywords.*, platforms, remakes, remasters, similar_games, rating, rating_count, cover.*, artworks.*, screenshots.*, videos.*, updated_at;",
    );
    corps.append("limit 1;");
    corps.append("where id = ");
    let chiffres = texte_u32(id);
    corps.append(chiffres.as_str());
    corps.append(";");
    Requete { endpoint: String::from_str("games/"), corps, resultat: None }
}

// The errors of addressing the remote source.

pub struct ErreurClientInaccessible {
    pub erreur: crate::json::Erreur,
}

impl ErreurClientInaccessible {
    pub fn as_err<T>(self) -> (r: Result<T, Erreur>)
        ensures
            (r matches Err(e) && e matches Erreur::ClientInaccessible(inner) && inner == self),
    {
        Err(Erreur::ClientInaccessible(self))
    }
}

impl TraitErreur for ErreurClientInaccessible {
    fn message(&self) -> String {
        let mut texte = String::from_str("Impossible d'accéder au client IGDB.");
        texte
    }

    fn cause(&self) -> Option<String> {
        Some(self.erreur.as_string())
    }
}

pub struct ErreurClientInvalide {
    pub erreur: crate::json::Erreur,
}

impl ErreurClientInvalide {
    pub fn as_err<T>(self) -> (r: Result<T, Erreur>)
        ensures
            (r matches Err(e) && e matches Erreur::ClientInvalide(inner) && inner == self),
    {
        Err(Erreur::ClientInvalide(self))
    }
}

impl TraitErreur for ErreurClientInvalide {
    fn message(&self) -> String {
        let mut texte = String::from_str("Le client IGDB enregistré est invalide.");
        texte
    }

    fn cause(&self) -> Option<String> {
        Some(self.erreur.as_string())
    }
}

pub struct ErreurDemandeToken {
    pub erreur: String,
}

impl ErreurDemandeToken {
    pub fn as_err<T>(self) -> (r: Result<T, Erreur>)
        ensures
            (r matches Err(e) && e matches Erreur::ErreurDemandeToken(inner) && inner == self),
    {
        Err(Erreur::ErreurDemandeToken(self))
    }
}

impl TraitErreur for ErreurDemandeToken {
    fn message(&self) -> String {
        let mut texte = String::from_str("Impossible de demander un token IGDB.");
        texte
    }

    fn cause(&self) -> Option<String> {
        Some(self.erreur.clone())
    }
}

pub struct ErreurRecuperationToken {
    pub erreur: String,
}

impl ErreurRecuperationToken {
    pub fn as_err<T>(self) -> (r: Result<T, Erreur>)
        ensures
            (r matches Err(e) && e matches Erreur::ErreurRecuperationToken(inner) && inner == self),
    {
        Err(Erreur::ErreurRecuperationToken(self))
    }
}

impl TraitErreur for ErreurRecuperationToken {
    fn message(&self) -> String {
        let mut texte = String::from_str("Impossible de lire le token IGDB reçu.");
        texte
    }

    fn cause(&self) -> Option<String> {
        Some(self.erreur.clone())
    }
}

pub struct ErreurEnregistrementExpire {
    pub erreur: crate::json::Erreur,
}

impl ErreurEnregistrementExpire {
    pub fn as_err<T>(self) -> (r: Result<T, Erreur>)
        ensures
            (r matches Err(e) && e matches Erreur::ErreurEnregistrementExpire(inner) && inner == self),
    {
        Err(Erreur::ErreurEnregistrementExpire(self))
    }
}

impl TraitErreur for ErreurEnregistrementExpire {
    fn message(&self) -> String {
        let mut texte = String::from_str("Impossible d'enregistrer l'expiration du token IGDB.");
        texte
    }

    fn cause(&self) -> Option<String> {
        Some(self.erreur.as_string())
    }
}

pub struct ErreurConstructionRequete {
    pub erreur: String,
}

impl ErreurConstructionRequete {
    pub fn as_err<T>(self) -> (r: Result<T, Erreur>)
        ensures
            (r matches Err(e) && e matches Erreur::ErreurConstructionRequete(inner) && inner == self),
    {
        Err(Erreur::ErreurConstructionRequete(self))
    }
}

impl TraitErreur for ErreurConstructionRequete {
    fn message(&self) -> String {
        let mut texte = String::from_str("Impossible de construire la requête IGDB.");
        texte
    }

    fn cause(&self) -> Option<String> {
        Some(self.erreur.clone())
    }
}

pub struct ErreurDemandeRequete {
    pub erreur: String,
}

impl ErreurDemandeRequete {
    pub fn as_err<T>(self) -> (r: Result<T, Erreur>)
        ensures
            (r matches Err(e) && e matches Erreur::ErreurDemandeRequete(inner) && inner == self),
    {
        Err(Erreur::ErreurDemandeRequete(self))
    }
}

impl TraitErreur for ErreurDemandeRequete {
    fn message(&self) -> String {
        let mut texte = String::from_str("Impossible d'envoyer la requête IGDB.");
        texte
    }

    fn cause(&self) -> Option<String> {
        Some(self.erreur.clone())
    }
}

pub struct ErreurTraitementRequete {
    pub erreur: String,
    pub reponse: String,
}

impl ErreurTraitementRequete {
    pub fn as_err<T>(self) -> (r: Result<T, Erreur>)
        ensures
            (r matches Err(e) && e matches Erreur::ErreurTraitementRequete(inner) && inner == self),
    {
        Err(Erreur::ErreurTraitementRequete(self))
    }
}

impl TraitErreur for ErreurTraitementRequete {
    fn message(&self) -> String {
        let mut texte = String::from_str("Impossible de lire la réponse IGDB: ");
        texte.append(self.reponse.as_str());
        texte
    }

    fn cause(&self) -> Option<String> {
        Some(self.erreur.clone())
    }
}

pub enum Erreur {
    ClientInaccessible(ErreurClientInaccessible),
    ClientInvalide(ErreurClientInvalide),
    ErreurDemandeToken(ErreurDemandeToken),
    ErreurRecuperationToken(ErreurRecuperationToken),
    ErreurEnregistrementExpire(ErreurEnregistrementExpire),
    ErreurConstructionRequete(ErreurConstructionRequete),
    ErreurDemandeRequete(ErreurDemandeRequete),
    ErreurTraitementRequete(ErreurTraitementRequete),
}

impl TraitErreur for Erreur {
    fn message(&self) -> String {
        match self {
            Erreur::ClientInaccessible(erreur) => erreur.message(),
            Erreur::ClientInvalide(erreur) => erreur.message(),
            Erreur::ErreurDemandeToken(erreur) => erreur.message(),
            Erreur::ErreurRecuperationToken(erreur) => erreur.message(),
            Erreur::ErreurEnregistrementExpire(erreur) => erreur.message(),
            Erreur::ErreurConstructionRequete(erreur) => erreur.message(),
            Erreur::ErreurDemandeRequete(erreur) => erreur.message(),
            Erreur::ErreurTraitementRequete(erreur) => erreur.message(),
        }
    }

    fn cause(&self) -> Option<String> {
        match self {
            Erreur::ClientInaccessible(erreur) => erreur.cause(),
            Erreur::ClientInvalide(erreur) => erreur.cause(),
            Erreur::ErreurDemandeToken(erreur) => erreur.cause(),
            Erreur::ErreurRecuperationToken(erreur) => erreur.cause(),
            Erreur::ErreurEnregistrementExpire(erreur) => erreur.cause(),
            Erreur::ErreurConstructionRequete(erreur) => erreur.cause(),
            Erreur::ErreurDemandeRequete(erreur) => erreur.cause(),
            Erreur::ErreurTraitementRequete(erreur) => erreur.cause(),
        }
    }
}

} // verus!
