//! The translation overlay's outbound side: trimming an entity down to the
//! fields worth translating, rendering the trimmed game as the JSON payload
//! of a translation request, and phrasing the request around it.
use vstd::prelude::*;

use crate::erreurs::TraitErreur;
use crate::json::texte_json;
use crate::json::guillemeter_json;
use crate::objet::{
    copier_opt_texte, CollectionIGDB, EntrepriseIGDB, FranchiseIGDB, GenreIGDB, JeuIGDB,
    MotCleIGDB, NomAlternatifIGDB, ThemeIGDB, VideoIGDB,
};
use crate::sql::{chiffres_nat, jointe, joindre, texte_u32};

verus! {

/// An entity that can be sent for translation: a copy keeping only what the
/// translator should see.
pub trait Traduisible: Sized {
    /// The copy sent for translation.
    spec fn preparee_spec(e: Self) -> Self;

    /// Trims this entity down to the fields worth translating.
    fn preparer_traduction(&self) -> (r: Self)
        ensures
            r == Self::preparee_spec(*self),
    ;
}

impl Traduisible for CollectionIGDB {
    open spec fn preparee_spec(e: Self) -> Self {
        CollectionIGDB {
            slug: None,
            name_traduit: None,
            updated_at: None,
            ..e
        }
    }

    fn preparer_traduction(&self) -> Self {
        CollectionIGDB {
            id: self.id,
            name: self.name.clone(),
            slug: None,
            name_traduit: None,
            updated_at: None,
        }
    }
}

impl Traduisible for FranchiseIGDB {
    open spec fn preparee_spec(e: Self) -> Self {
        FranchiseIGDB {
            slug: None,
            name_traduit: None,
            updated_at: None,
            ..e
        }
    }

    fn preparer_traduction(&self) -> Self {
        FranchiseIGDB {
            id: self.id,
            name: self.name.clone(),
            slug: None,
            name_traduit: None,
            updated_at: None,
        }
    }
}

impl Traduisible for GenreIGDB {
    open spec fn preparee_spec(e: Self) -> Self {
        GenreIGDB {
            slug: None,
            name_traduit: None,
            updated_at: None,
            ..e
        }
    }

    fn preparer_traduction(&self) -> Self {
        GenreIGDB {
            id: self.id,
            name: self.name.clone(),
            slug: None,
            name_traduit: None,
            updated_at: None,
        }
    }
}

impl Traduisible for ThemeIGDB {
    open spec fn preparee_spec(e: Self) -> Self {
        ThemeIGDB {
            slug: None,
            name_traduit: None,
            updated_at: None,
            ..e
        }
    }

    fn preparer_traduction(&self) -> Self {
        ThemeIGDB {
            id: self.id,
            name: self.name.clone(),
            slug: None,
            name_traduit: None,
            updated_at: None,
        }
    }
}

impl Traduisible for MotCleIGDB {
    open spec fn preparee_spec(e: Self) -> Self {
        MotCleIGDB {
            slug: None,
            name_traduit: None,
            updated_at: None,
            ..e
        }
    }

    fn preparer_traduction(&self) -> Self {
        MotCleIGDB {
            id: self.id,
            name: self.name.clone(),
            slug: None,
            name_traduit: None,
            updated_at: None,
        }
    }
}

impl Traduisible for NomAlternatifIGDB {
    open spec fn preparee_spec(e: Self) -> Self {
        NomAlternatifIGDB {
            game: None,
            ..e
        }
    }

    fn preparer_traduction(&self) -> Self {
        NomAlternatifIGDB {
            id: self.id,
            comment: copier_opt_texte(&self.comment),
            name: self.name.clone(),
            game: None,
        }
    }
}

impl Traduisible for VideoIGDB {
    open spec fn preparee_spec(e: Self) -> Self {
        VideoIGDB {
            name_traduit: None,
            video_id: None,
            ..e
        }
    }

    fn preparer_traduction(&self) -> Self {
        VideoIGDB {
            id: self.id,
            name: self.name.clone(),
            name_traduit: None,
            video_id: None,
        }
    }
}

impl Traduisible for EntrepriseIGDB {
    open spec fn preparee_spec(e: Self) -> Self {
        EntrepriseIGDB {
            slug: None,
            name_traduit: None,
            developed: None,
            published: None,
            description_traduit: None,
            parent: None,
            logo: None,
            start_date: None,
            updated_at: None,
            ..e
        }
    }

    fn preparer_traduction(&self) -> Self {
        EntrepriseIGDB {
            id: self.id,
            name: self.name.clone(),
            slug: None,
            name_traduit: None,
            developed: None,
            published: None,
            description: copier_opt_texte(&self.description),
            description_traduit: None,
            parent: None,
            logo: None,
            start_date: None,
            updated_at: None,
        }
    }
}

impl JeuIGDB {
    /// Trims this game down to the fields worth translating: names and
    /// narrative text stay, every identifier, relation and measure is
    /// dropped, and each kept sub-entity is trimmed in turn.
    pub fn preparer_traduction(&self) -> (r: JeuIGDB)
        ensures
            r.id == self.id,
            r.name == self.name,
            r.slug is None,
            r.name_traduit is None,
            (match (&self.alternative_names, &r.alternative_names) {
                (Some(a), Some(b)) => b@ == a@,
                (None, None) => true,
                _ => false,
            }),
            r.storyline == self.storyline,
            r.summary == self.summary,
            r.storyline_traduit is None,
            r.summary_traduit is None,
            r.first_release_date is None,
            (match (&self.collection, &r.collection) {
                (Some(c), Some(p)) => *p == CollectionIGDB::preparee_spec(*c),
                (None, None) => true,
                _ => false,
            }),
            (match (&self.franchise, &r.franchise) {
                (Some(c), Some(p)) => *p == FranchiseIGDB::preparee_spec(*c),
                (None, None) => true,
                _ => false,
            }),
            r.category is None,
            (match (&self.genres, &r.genres) {
                (Some(a), Some(b)) => b@.len() == a@.len() && forall|k: int|
                    0 <= k < a@.len() ==> b@[k] == GenreIGDB::preparee_spec(#[trigger] a@[k]),
                (None, None) => true,
                _ => false,
            }),
            (match (&self.themes, &r.themes) {
                (Some(a), Some(b)) => b@.len() == a@.len() && forall|k: int|
                    0 <= k < a@.len() ==> b@[k] == ThemeIGDB::preparee_spec(#[trigger] a@[k]),
                (None, None) => true,
                _ => false,
            }),
            (match (&self.keywords, &r.keywords) {
                (Some(a), Some(b)) => b@.len() == a@.len() && forall|k: int|
                    0 <= k < a@.len() ==> b@[k] == MotCleIGDB::preparee_spec(#[trigger] a@[k]),
                (None, None) => true,
                _ => false,
            }),
            r.platforms is None,
            r.remakes is None,
            r.remasters is None,
            r.similar_games is None,
            r.rating is None,
            r.rating_count is None,
            r.cover is None,
            r.artworks is None,
            r.screenshots is None,
            (match (&self.videos, &r.videos) {
                (Some(a), Some(b)) => b@.len() == a@.len() && forall|k: int|
                    0 <= k < a@.len() ==> b@[k] == VideoIGDB::preparee_spec(#[trigger] a@[k]),
                (None, None) => true,
                _ => false,
            }),
            r.updated_at is None,
    {
        let alternative_names: Option<Vec<NomAlternatifIGDB>> = match &self.alternative_names {
            Some(a) => {
                let mut copie: Vec<NomAlternatifIGDB> = Vec::new();
                let mut i: usize = 0;
                while i < a.len()
                    invariant
                        i <= a@.len(),
                        copie@.len() == i,
                        forall|k: int| 0 <= k < i ==> copie@[k] == a@[k],
                    decreases a@.len() - i,
                {
                    copie.push(
                        NomAlternatifIGDB {
                            id: a[i].id,
                            comment: copier_opt_texte(&a[i].comment),
                            name: a[i].name.clone(),
                            game: a[i].game,
                        },
                    );
                    i += 1;
                }
                Some(copie)
            },
            None => None,
        };
        let genres: Option<Vec<GenreIGDB>> = match &self.genres {
            Some(a) => {
                let mut copie: Vec<GenreIGDB> = Vec::new();
                let mut i: usize = 0;
                while i < a.len()
                    invariant
                        i <= a@.len(),
                        copie@.len() == i,
                        forall|k: int|
                            0 <= k < i ==> copie@[k] == GenreIGDB::preparee_spec(
                                #[trigger] a@[k],
                            ),
                    decreases a@.len() - i,
                {
                    copie.push(a[i].preparer_traduction());
                    i += 1;
                }
                Some(copie)
            },
            None => None,
        };
        let themes: Option<Vec<ThemeIGDB>> = match &self.themes {
            Some(a) => {
                let mut copie: Vec<ThemeIGDB> = Vec::new();
                let mut i: usize = 0;
                while i < a.len()
                    invariant
                        i <= a@.len(),
                        copie@.len() == i,
                        forall|k: int|
                            0 <= k < i ==> copie@[k] == ThemeIGDB::preparee_spec(
                                #[trigger] a@[k],
                            ),
                    decreases a@.len() - i,
                {
                    copie.push(a[i].preparer_traduction());
                    i += 1;
                }
                Some(copie)
            },
            None => None,
        };
        let keywords: Option<Vec<MotCleIGDB>> = match &self.keywords {
            Some(a) => {
                let mut copie: Vec<MotCleIGDB> = Vec::new();
                let mut i: usize = 0;
                while i < a.len()
                    invariant
                        i <= a@.len(),
                        copie@.len() == i,
                        forall|k: int|
                            0 <= k < i ==> copie@[k] == MotCleIGDB::preparee_spec(
                                #[trigger] a@[k],
                            ),
                    decreases a@.len() - i,
                {
                    copie.push(a[i].preparer_traduction());
                    i += 1;
                }
                Some(copie)
            },
            None => None,
        };
        let videos: Option<Vec<VideoIGDB>> = match &self.videos {
            Some(a) => {
                let mut copie: Vec<VideoIGDB> = Vec::new();
                let mut i: usize = 0;
                while i < a.len()
                    invariant
                        i <= a@.len(),
                        copie@.len() == i,
                        forall|k: int|
                            0 <= k < i ==> copie@[k] == VideoIGDB::preparee_spec(
                                #[trigger] a@[k],
                            ),
                    decreases a@.len() - i,
                {
                    copie.push(a[i].preparer_traduction());
                    i += 1;
                }
                Some(copie)
            },
            None => None,
        };
        JeuIGDB {
            id: self.id,
            name: self.name.clone(),
            slug: None,
            name_traduit: None,
            alternative_names,
            storyline: copier_opt_texte(&self.storyline),
            summary: copier_opt_texte(&self.summary),
            storyline_traduit: None,
            summary_traduit: None,
            first_release_date: None,
            collection: match &self.collection {
                Some(c) => Some(c.preparer_traduction()),
                None => None,
            },
            franchise: match &self.franchise {
                Some(f) => Some(f.preparer_traduction()),
                None => None,
            },
            category: None,
            genres,
            themes,
            keywords,
            platforms: None,
            remakes: None,
            remasters: None,
            similar_games: None,
            rating: None,
            rating_count: None,
            cover: None,
            artworks: None,
            screenshots: None,
            videos,
            updated_at: None,
        }
    }
}



// The JSON payload of a translation request: the trimmed game, rendered
// with only its present fields — an absent field writes nothing.

/// The JSON object of a trimmed sub-entity: its id and its name.
pub open spec fn json_allege(id: u32, name: Seq<char>) -> Seq<char> {
    "{\"id\": "@ + chiffres_nat(id as nat) + ", \"name\": "@ + texte_json(name) + "}"@
}

/// Renders a trimmed sub-entity as its JSON object.
fn objet_allege(id: u32, name: &String) -> (r: String)
    ensures
        r@ == json_allege(id, name@),
{
    let mut sortie = String::from_str("{\"id\": ");
    let chiffres = texte_u32(id);
    sortie.append(chiffres.as_str());
    sortie.append(", \"name\": ");
    let nom = guillemeter_json(name.as_str());
    sortie.append(nom.as_str());
    sortie.append("}");
    sortie
}

/// An optional text member: its prefix and its JSON literal when present,
/// nothing otherwise.
pub open spec fn partie_texte(prefixe: Seq<char>, o: Option<String>) -> Seq<char> {
    match o {
        Some(v) => prefixe + texte_json(v@),
        None => Seq::empty(),
    }
}

/// Appends an optional text member.
fn ajouter_partie_texte(sortie: &mut String, prefixe: &'static str, o: &Option<String>)
    ensures
        final(sortie)@ == old(sortie)@ + partie_texte(prefixe@, *o),
{
    match o {
        Some(v) => {
            sortie.append(prefixe);
            let t = guillemeter_json(v.as_str());
            sortie.append(t.as_str());
        },
        None => {
            proof {
                assert(final(sortie)@ =~= old(sortie)@ + partie_texte(prefixe@, *o));
            }
        },
    }
}

/// The JSON object of a trimmed alternative name: its id, its comment when
/// one stands, and its name.
pub open spec fn json_nom_alternatif(n: NomAlternatifIGDB) -> Seq<char> {
    "{\"id\": "@ + chiffres_nat(n.id as nat) + partie_texte(", \"comment\": "@, n.comment)
        + ", \"name\": "@ + texte_json(n.name@) + "}"@
}

/// Renders a trimmed alternative name as its JSON object.
fn objet_nom_alternatif(n: &NomAlternatifIGDB) -> (r: String)
    ensures
        r@ == json_nom_alternatif(*n),
{
    let mut sortie = String::from_str("{\"id\": ");
    let chiffres = texte_u32(n.id);
    sortie.append(chiffres.as_str());
    ajouter_partie_texte(&mut sortie, ", \"comment\": ", &n.comment);
    sortie.append(", \"name\": ");
    let nom = guillemeter_json(n.name.as_str());
    sortie.append(nom.as_str());
    sortie.append("}");
    proof {
        assert(sortie@ =~= json_nom_alternatif(*n));
    }
    sortie
}

/// The rendered elements of the alternative-name list, in order.
pub open spec fn elements_noms(v: Seq<NomAlternatifIGDB>) -> Seq<Seq<char>> {
    v.map_values(|n: NomAlternatifIGDB| json_nom_alternatif(n))
}

/// Renders the alternative-name list as a JSON array.
fn tableau_noms(v: &Vec<NomAlternatifIGDB>) -> (r: String)
    ensures
        r@ == "["@ + jointe(elements_noms(v@)) + "]"@,
{
    let mut elements: Vec<String> = Vec::new();
    let mut i: usize = 0;
    while i < v.len()
        invariant
            i <= v@.len(),
            elements.deep_view().len() == i,
            forall|k: int|
                0 <= k < i ==> elements.deep_view()[k] == json_nom_alternatif(
                    #[trigger] v@[k],
                ),
        decreases v@.len() - i,
    {
        elements.push(objet_nom_alternatif(&v[i]));
        i += 1;
    }
    proof {
        assert(elements.deep_view() =~= elements_noms(v@));
    }
    let jointes = joindre(&elements);
    let mut sortie = String::from_str("[");
    sortie.append(jointes.as_str());
    sortie.append("]");
    sortie
}

/// The rendered elements of the genres list, in order.
pub open spec fn elements_genres(v: Seq<GenreIGDB>) -> Seq<Seq<char>> {
    v.map_values(|e: GenreIGDB| json_allege(e.id, e.name@))
}

/// Renders the trimmed genres list as a JSON array.
fn tableau_genres(v: &Vec<GenreIGDB>) -> (r: String)
    ensures
        r@ == "["@ + jointe(elements_genres(v@)) + "]"@,
{
    let mut elements: Vec<String> = Vec::new();
    let mut i: usize = 0;
    while i < v.len()
        invariant
            i <= v@.len(),
            elements.deep_view().len() == i,
            forall|k: int|
                0 <= k < i ==> elements.deep_view()[k] == json_allege(
                    (#[trigger] v@[k]).id,
                    v@[k].name@,
                ),
        decreases v@.len() - i,
    {
        elements.push(objet_allege(v[i].id, &v[i].name));
        i += 1;
    }
    proof {
        assert(elements.deep_view() =~= elements_genres(v@));
    }
    let jointes = joindre(&elements);
    let mut sortie = String::from_str("[");
    sortie.append(jointes.as_str());
    sortie.append("]");
    sortie
}

/// The rendered elements of the themes list, in order.
pub open spec fn elements_themes(v: Seq<ThemeIGDB>) -> Seq<Seq<char>> {
    v.map_values(|e: ThemeIGDB| json_allege(e.id, e.name@))
}

/// Renders the trimmed themes list as a JSON array.
fn tableau_themes(v: &Vec<ThemeIGDB>) -> (r: String)
    ensures
        r@ == "["@ + jointe(elements_themes(v@)) + "]"@,
{
    let mut elements: Vec<String> = Vec::new();
    let mut i: usize = 0;
    while i < v.len()
        invariant
            i <= v@.len(),
            elements.deep_view().len() == i,
            forall|k: int|
                0 <= k < i ==> elements.deep_view()[k] == json_allege(
                    (#[trigger] v@[k]).id,
                    v@[k].name@,
                ),
        decreases v@.len() - i,
    {
        elements.push(objet_allege(v[i].id, &v[i].name));
        i += 1;
    }
    proof {
        assert(elements.deep_view() =~= elements_themes(v@));
    }
    let jointes = joindre(&elements);
    let mut sortie = String::from_str("[");
    sortie.append(jointes.as_str());
    sortie.append("]");
    sortie
}

/// The rendered elements of the mots_cles list, in order.
pub open spec fn elements_mots_cles(v: Seq<MotCleIGDB>) -> Seq<Seq<char>> {
    v.map_values(|e: MotCleIGDB| json_allege(e.id, e.name@))
}

/// Renders the trimmed mots_cles list as a JSON array.
fn tableau_mots_cles(v: &Vec<MotCleIGDB>) -> (r: String)
    ensures
        r@ == "["@ + jointe(elements_mots_cles(v@)) + "]"@,
{
    let mut elements: Vec<String> = Vec::new();
    let mut i: usize = 0;
    while i < v.len()
        invariant
            i <= v@.len(),
            elements.deep_view().len() == i,
            forall|k: int|
                0 <= k < i ==> elements.deep_view()[k] == json_allege(
                    (#[trigger] v@[k]).id,
                    v@[k].name@,
                ),
        decreases v@.len() - i,
    {
        elements.push(objet_allege(v[i].id, &v[i].name));
        i += 1;
    }
    proof {
        assert(elements.deep_view() =~= elements_mots_cles(v@));
    }
    let jointes = joindre(&elements);
    let mut sortie = String::from_str("[");
    sortie.append(jointes.as_str());
    sortie.append("]");
    sortie
}

/// The rendered elements of the videos list, in order.
pub open spec fn elements_videos(v: Seq<VideoIGDB>) -> Seq<Seq<char>> {
    v.map_values(|e: VideoIGDB| json_allege(e.id, e.name@))
}

/// Renders the trimmed videos list as a JSON array.
fn tableau_videos(v: &Vec<VideoIGDB>) -> (r: String)
    ensures
        r@ == "["@ + jointe(elements_videos(v@)) + "]"@,
{
    let mut elements: Vec<String> = Vec::new();
    let mut i: usize = 0;
    while i < v.len()
        invariant
            i <= v@.len(),
            elements.deep_view().len() == i,
            forall|k: int|
                0 <= k < i ==> elements.deep_view()[k] == json_allege(
                    (#[trigger] v@[k]).id,
                    v@[k].name@,
                ),
        decreases v@.len() - i,
    {
        elements.push(objet_allege(v[i].id, &v[i].name));
        i += 1;
    }
    proof {
        assert(elements.deep_view() =~= elements_videos(v@));
    }
    let jointes = joindre(&elements);
    let mut sortie = String::from_str("[");
    sortie.append(jointes.as_str());
    sortie.append("]");
    sortie
}

/// The opening of the payload: id, name, the alternative names, the
/// narrative fields, and the single-valued relations, each rendered only
/// when present.
pub open spec fn json_partie_un(j: JeuIGDB) -> Seq<char> {
    "{\"id\": "@ + chiffres_nat(j.id as nat) + ", \"name\": "@ + texte_json(j.name@) + (match j.alternative_names {
        Some(v) => ", \"alternative_names\": "@ + ("["@ + jointe(elements_noms(v@)) + "]"@),
        None => Seq::empty(),
    }) + partie_texte(", \"storyline\": "@, j.storyline) + partie_texte(
        ", \"summary\": "@,
        j.summary,
    ) + (match j.collection {
        Some(c) => ", \"collection\": "@ + json_allege(c.id, c.name@),
        None => Seq::empty(),
    }) + (match j.franchise {
        Some(f) => ", \"franchise\": "@ + json_allege(f.id, f.name@),
        None => Seq::empty(),
    })
}

/// The close of the payload: the genre, theme, keyword and video lists,
/// each rendered only when present.
pub open spec fn json_partie_deux(j: JeuIGDB) -> Seq<char> {
    (match j.genres {
        Some(v) => ", \"genres\": "@ + ("["@ + jointe(elements_genres(v@)) + "]"@),
        None => Seq::empty(),
    }) + (match j.themes {
        Some(v) => ", \"themes\": "@ + ("["@ + jointe(elements_themes(v@)) + "]"@),
        None => Seq::empty(),
    }) + (match j.keywords {
        Some(v) => ", \"keywords\": "@ + ("["@ + jointe(elements_mots_cles(v@)) + "]"@),
        None => Seq::empty(),
    }) + (match j.videos {
        Some(v) => ", \"videos\": "@ + ("["@ + jointe(elements_videos(v@)) + "]"@),
        None => Seq::empty(),
    }) + "}"@
}

/// The JSON payload of a translation request: the game trimmed to its
/// translatable fields — names, narrative text, and the named sub-entities
/// — each absent field left out entirely.
pub open spec fn json_jeu_traduisible(j: JeuIGDB) -> Seq<char> {
    json_partie_un(j) + json_partie_deux(j)
}

/// Renders the opening of the payload.
#[verifier::rlimit(100)]
#[verifier::spinoff_prover]
fn rendre_partie_un(jeu: &JeuIGDB) -> (r: String)
    ensures
        r@ == json_partie_un(*jeu),
{
    let mut sortie = String::from_str("{\"id\": ");
    let chiffres = texte_u32(jeu.id);
    sortie.append(chiffres.as_str());
    sortie.append(", \"name\": ");
    let nom = guillemeter_json(jeu.name.as_str());
    sortie.append(nom.as_str());
    let ghost mut attendu: Seq<char> = "{\"id\": "@ + chiffres_nat(jeu.id as nat)
        + ", \"name\": "@ + texte_json(jeu.name@);
    proof {
        assert(sortie@ =~= attendu);
    }
    match &jeu.alternative_names {
        Some(v) => {
            sortie.append(", \"alternative_names\": ");
            let t = tableau_noms(v);
            sortie.append(t.as_str());
        },
        None => {},
    }
    proof {
        attendu = attendu + (match &jeu.alternative_names {
            Some(v) => ", \"alternative_names\": "@ + ("["@ + jointe(elements_noms(v@))
                + "]"@),
            None => Seq::empty(),
        });
        assert(sortie@ =~= attendu);
    }
    ajouter_partie_texte(&mut sortie, ", \"storyline\": ", &jeu.storyline);
    ajouter_partie_texte(&mut sortie, ", \"summary\": ", &jeu.summary);
    proof {
        attendu = attendu + partie_texte(", \"storyline\": "@, jeu.storyline) + partie_texte(
            ", \"summary\": "@,
            jeu.summary,
        );
        assert(sortie@ =~= attendu);
    }
    match &jeu.collection {
        Some(c) => {
            sortie.append(", \"collection\": ");
            let t = objet_allege(c.id, &c.name);
            sortie.append(t.as_str());
        },
        None => {},
    }
    match &jeu.franchise {
        Some(f) => {
            sortie.append(", \"franchise\": ");
            let t = objet_allege(f.id, &f.name);
            sortie.append(t.as_str());
        },
        None => {},
    }
    proof {
        attendu = attendu + (match &jeu.collection {
            Some(c) => ", \"collection\": "@ + json_allege(c.id, c.name@),
            None => Seq::empty(),
        }) + (match &jeu.franchise {
            Some(f) => ", \"franchise\": "@ + json_allege(f.id, f.name@),
            None => Seq::empty(),
        });
        assert(sortie@ =~= attendu);
        assert(attendu =~= json_partie_un(*jeu));
    }
    sortie
}

/// Renders the close of the payload.
#[verifier::rlimit(100)]
#[verifier::spinoff_prover]
fn rendre_partie_deux(jeu: &JeuIGDB) -> (r: String)
    ensures
        r@ == json_partie_deux(*jeu),
{
    let mut sortie = String::new();
    let ghost mut attendu: Seq<char> = Seq::empty();
    proof {
        assert(sortie@ =~= attendu);
    }
    match &jeu.genres {
        Some(v) => {
            sortie.append(", \"genres\": ");
            let t = tableau_genres(v);
            sortie.append(t.as_str());
        },
        None => {},
    }
    match &jeu.themes {
        Some(v) => {
            sortie.append(", \"themes\": ");
            let t = tableau_themes(v);
            sortie.append(t.as_str());
        },
        None => {},
    }
    proof {
        attendu = attendu + (match &jeu.genres {
            Some(v) => ", \"genres\": "@ + ("["@ + jointe(elements_genres(v@)) + "]"@),
            None => Seq::empty(),
        }) + (match &jeu.themes {
            Some(v) => ", \"themes\": "@ + ("["@ + jointe(elements_themes(v@)) + "]"@),
            None => Seq::empty(),
        });
        assert(sortie@ =~= attendu);
    }
    match &jeu.keywords {
        Some(v) => {
            sortie.append(", \"keywords\": ");
            let t = tableau_mots_cles(v);
            sortie.append(t.as_str());
        },
        None => {},
    }
    match &jeu.videos {
        Some(v) => {
            sortie.append(", \"videos\": ");
            let t = tableau_videos(v);
            sortie.append(t.as_str());
        },
        None => {},
    }
    sortie.append("}");
    proof {
        attendu = attendu + (match &jeu.keywords {
            Some(v) => ", \"keywords\": "@ + ("["@ + jointe(elements_mots_cles(v@)) + "]"@),
            None => Seq::empty(),
        }) + (match &jeu.videos {
            Some(v) => ", \"videos\": "@ + ("["@ + jointe(elements_videos(v@)) + "]"@),
            None => Seq::empty(),
        }) + "}"@;
        assert(sortie@ =~= attendu);
        assert(attendu =~= json_partie_deux(*jeu));
    }
    sortie
}

/// Renders this game, trimmed to its translatable fields, as the JSON
/// payload of a translation request. Only what the trimmed copy would keep
/// is read, so the rendering equals that of the trimmed copy.
pub fn rendre_json_traduisible(jeu: &JeuIGDB) -> (r: String)
    ensures
        r@ == json_jeu_traduisible(*jeu),
{
    let mut sortie = rendre_partie_un(jeu);
    let fin = rendre_partie_deux(jeu);
    sortie.append(fin.as_str());
    sortie
}

/// The instruction placed before the payload: translate into the target
/// language, keep the name unless an alternative title in that language
/// stands, and drop the alternative names.
pub open spec fn pre_prompt_jeu(langue: Seq<char>) -> Seq<char> {
    "Translate this game into "@ + langue
        + " (the name of the game should not be modified unless a "@ + langue
        + " altenative title is provided) and delete \"alternative_names\""@
}

/// A prompt could not be built.
pub struct ErreurCreationPrompt {
    pub erreur: String,
}

impl ErreurCreationPrompt {
    pub fn as_err<T>(self) -> (r: Result<T, Erreur>)
        ensures
            (r matches Err(e) && e matches Erreur::ErreurCreationPrompt(inner) && inner == self),
    {
        Err(Erreur::ErreurCreationPrompt(self))
    }
}

impl TraitErreur for ErreurCreationPrompt {
    fn message(&self) -> String {
        String::from_str("Impossible de créer le prompt de traduction.")
    }

    fn cause(&self) -> Option<String> {
        Some(self.erreur.clone())
    }
}

pub enum Erreur {
    ErreurCreationPrompt(ErreurCreationPrompt),
}

impl TraitErreur for Erreur {
    fn message(&self) -> String {
        match self {
            Erreur::ErreurCreationPrompt(erreur) => erreur.message(),
        }
    }

    fn cause(&self) -> Option<String> {
        match self {
            Erreur::ErreurCreationPrompt(erreur) => erreur.cause(),
        }
    }
}

impl JeuIGDB {
    /// The instruction placed before this game's payload.
    pub fn pre_prompt(&self, langue: &String) -> (r: String)
        ensures
            r@ == pre_prompt_jeu(langue@),
    {
        let mut texte = String::from_str("Translate this game into ");
        texte.append(langue.as_str());
        texte.append(" (the name of the game should not be modified unless a ");
        texte.append(langue.as_str());
        texte.append(" altenative title is provided) and delete \"alternative_names\"");
        texte
    }

    /// The whole translation prompt: the instruction, then the trimmed game
    /// as JSON. Rendering is total, so building the prompt always succeeds.
    pub fn prompt(&self, langue: &String) -> (r: Result<String, Erreur>)
        ensures
            (r matches Ok(p) && p@ == pre_prompt_jeu(langue@) + ":\n"@ + json_jeu_traduisible(
                *self,
            )),
    {
        let mut texte = self.pre_prompt(langue);
        texte.append(":\n");
        let json = rendre_json_traduisible(self);
        texte.append(json.as_str());
        Ok(texte)
    }
}

} // verus!
