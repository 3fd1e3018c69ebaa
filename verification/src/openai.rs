//! The translation service: the completion request the library builds, the
//! shape of the structured response it parses, and the errors of the
//! exchange. The network itself stays outside the library.
use vstd::prelude::*;

use crate::erreurs::TraitErreur;
use crate::json::texte_json;
use crate::json::guillemeter_json;

verus! {

/// The secret under which the translation service is addressed.
#[derive(Debug, PartialEq)]
pub struct Token {
    pub secret_key: String,
}

/// The placeholder secret written for the user to fill in.
pub fn token_modele() -> (r: Token)
    ensures
        r.secret_key@ == "your_openai_api_key"@,
{
    Token { secret_key: String::from_str("your_openai_api_key") }
}

/// A connected client: the secret a request carries.
#[derive(Debug, PartialEq)]
pub struct ClientOpenAI {
    pub secret_key: String,
}

impl ClientOpenAI {
    /// A client from a secret key.
    pub fn new(secret_key: String) -> (r: ClientOpenAI)
        ensures
            r.secret_key == secret_key,
    {
        ClientOpenAI { secret_key }
    }
}

/// The structured response of the translation service.
#[derive(Debug, PartialEq)]
pub struct ReponseGPT {
    pub id: String,
    pub object: String,
    pub created: i64,
    pub model: String,
    pub usage: UsageGPT,
    pub choices: Vec<ChoixGPT>,
}

#[derive(Debug, PartialEq)]
pub struct UsageGPT {
    pub prompt_tokens: u32,
    pub completion_tokens: u32,
    pub total_tokens: u32,
}

#[derive(Debug, PartialEq)]
pub struct ChoixGPT {
    pub message: MessageGPT,
    pub finish_reason: String,
    pub index: u32,
}

#[derive(Debug, PartialEq)]
pub struct MessageGPT {
    pub role: String,
    pub content: String,
}

/// The completion model every request names.
pub fn obtenir_modele() -> (r: String)
    ensures
        r@ == "gpt-3.5-turbo"@,
{
    String::from_str("gpt-3.5-turbo")
}

/// One request to the translation service: its body.
#[derive(Debug)]
pub struct Requete<T> {
    pub corps: String,
    pub resultat: Option<T>,
}

/// The body of a completion request: the fixed model and temperature, a
/// system message, and the user's text, both as JSON string literals.
pub open spec fn corps_completion(systeme: Seq<char>, utilisateur: Seq<char>) -> Seq<char> {
    "{\"model\": \"gpt-3.5-turbo\", \"messages\": [{\"role\": \"system\", \"content\": "@
        + texte_json(systeme) + "}, {\"role\": \"user\", \"content\": "@ + texte_json(utilisateur)
        + "}], \"temperature\": 0.2}"@
}

/// Builds the completion request carrying a system message and a user text.
pub fn requete(systeme: String, utilisateur: String) -> (r: Requete<ReponseGPT>)
    ensures
        r.corps@ == corps_completion(systeme@, utilisateur@),
        r.resultat is None,
{
    let mut corps = String::from_str(
        "{\"model\": \"gpt-3.5-turbo\", \"messages\": [{\"role\": \"system\", \"content\": ",
    );
    let sys = guillemeter_json(systeme.as_str());
    corps.append(sys.as_str());
    corps.append("}, {\"role\": \"user\", \"content\": ");
    let util = guillemeter_json(utilisateur.as_str());
    corps.append(util.as_str());
    corps.append("}], \"temperature\": 0.2}");
    Requete { corps, resultat: None }
}

// The errors of addressing the translation service.

pub struct ErreurTokenInaccessible {
    pub erreur: crate::json::Erreur,
}

impl ErreurTokenInaccessible {
    pub fn as_err<T>(self) -> (r: Result<T, Erreur>)
        ensures
            (r matches Err(e) && e matches Erreur::TokenInaccessible(inner) && inner == self),
    {
        Err(Erreur::TokenInaccessible(self))
    }
}

impl TraitErreur for ErreurTokenInaccessible {
    fn message(&self) -> String {
        String::from_str("Impossible d'accéder au token OpenAI.")
    }

    fn cause(&self) -> Option<String> {
        Some(self.erreur.as_string())
    }
}

pub struct ErreurTokenInvalide {
    pub erreur: crate::json::Erreur,
}

impl ErreurTokenInvalide {
    pub fn as_err<T>(self) -> (r: Result<T, Erreur>)
        ensures
            (r matches Err(e) && e matches Erreur::TokenInvalide(inner) && inner == self),
    {
        Err(Erreur::TokenInvalide(self))
    }
}

impl TraitErreur for ErreurTokenInvalide {
    fn message(&self) -> String {
        String::from_str("Le token OpenAI enregistré est invalide.")
    }

    fn cause(&self) -> Option<String> {
        Some(self.erreur.as_string())
    }
}

pub struct ErreurConstructionRequete {
    pub erreur: String,
}

impl ErreurConstructionRequete {
    pub fn as_err<T>(self) -> (r: Result<T, Erreur>)
        ensures
            (r matches Err(e) && e matches Erreur::ErreurConstructionRequete(inner) && inner == self),
    {
        Err(Erreur::ErreurConstructionRequete(self))
    }
}

impl TraitErreur for ErreurConstructionRequete {
    fn message(&self) -> String {
        String::from_str("Impossible de construire la requête OpenAI.")
    }

    fn cause(&self) -> Option<String> {
        Some(self.erreur.clone())
    }
}

pub struct ErreurDemandeRequete {
    pub erreur: String,
}

impl ErreurDemandeRequete {
    pub fn as_err<T>(self) -> (r: Result<T, Erreur>)
        ensures
            (r matches Err(e) && e matches Erreur::ErreurDemandeRequete(inner) && inner == self),
    {
        Err(Erreur::ErreurDemandeRequete(self))
    }
}

impl TraitErreur for ErreurDemandeRequete {
    fn message(&self) -> String {
        String::from_str("Impossible d'envoyer la requête OpenAI.")
    }

    fn cause(&self) -> Option<String> {
        Some(self.erreur.clone())
    }
}

pub struct ErreurTraitementRequete {
    pub erreur: String,
    pub reponse: String,
}

impl ErreurTraitementRequete {
    pub fn as_err<T>(self) -> (r: Result<T, Erreur>)
        ensures
            (r matches Err(e) && e matches Erreur::ErreurTraitementRequete(inner) && inner == self),
    {
        Err(Erreur::ErreurTraitementRequete(self))
    }
}

impl TraitErreur for ErreurTraitementRequete {
    fn message(&self) -> String {
        String::from_str("Impossible de lire la réponse OpenAI.")
    }

    fn cause(&self) -> Option<String> {
        Some(self.erreur.clone())
    }
}

pub enum Erreur {
    TokenInaccessible(ErreurTokenInaccessible),
    TokenInvalide(ErreurTokenInvalide),
    ErreurConstructionRequete(ErreurConstructionRequete),
    ErreurDemandeRequete(ErreurDemandeRequete),
    ErreurTraitementRequete(ErreurTraitementRequete),
}

impl TraitErreur for Erreur {
    fn message(&self) -> String {
        match self {
            Erreur::TokenInaccessible(erreur) => erreur.message(),
            Erreur::TokenInvalide(erreur) => erreur.message(),
            Erreur::ErreurConstructionRequete(erreur) => erreur.message(),
            Erreur::ErreurDemandeRequete(erreur) => erreur.message(),
            Erreur::ErreurTraitementRequete(erreur) => erreur.message(),
        }
    }

    fn cause(&self) -> Option<String> {
        match self {
            Erreur::TokenInaccessible(erreur) => erreur.cause(),
            Erreur::TokenInvalide(erreur) => erreur.cause(),
            Erreur::ErreurConstructionRequete(erreur) => erreur.cause(),
            Erreur::ErreurDemandeRequete(erreur) => erreur.cause(),
            Erreur::ErreurTraitementRequete(erreur) => erreur.cause(),
        }
    }
}

} // verus!
