//! Typed shapes of the cataloged metadata: games, their lookup sub-entities,
//! media entities, and the catalog entries linking files to metadata.
use vstd::prelude::*;

verus! {

/// True when `c` is an ASCII decimal digit.
pub open spec fn est_chiffre(c: char) -> bool {
    48 <= c as u32 <= 57
}

/// A rating kept as its decimal text: digits with at most one inner point.
/// The shape guarantees that the text reads as one SQL numeric literal.
pub open spec fn note_bien_formee(s: Seq<char>) -> bool {
    &&& s.len() > 0
    &&& forall|i: int| 0 <= i < s.len() ==> est_chiffre(s[i]) || s[i] == '.'
    &&& est_chiffre(s[0])
    &&& est_chiffre(s[s.len() - 1])
    &&& forall|i: int, j: int| 0 <= i < j < s.len() ==> !(s[i] == '.' && s[j] == '.')
}

#[derive(Debug, PartialEq)]
pub struct Note {
    pub texte: String,
}

impl Note {
    pub open spec fn texte_spec(&self) -> Seq<char> {
        self.texte@
    }

    pub open spec fn bien_formee(&self) -> bool {
        note_bien_formee(self.texte@)
    }

    /// Accepts a decimal text as a rating; rejects any other shape.
    pub fn nouvelle(texte: String) -> (r: Option<Note>)
        ensures
            match r {
                Some(n) => n.texte@ == texte@ && n.bien_formee(),
                None => !note_bien_formee(texte@),
            },
    {
        let s = texte.as_str();
        let longueur = s.unicode_len();
        if longueur == 0 {
            return None;
        }
        let mut point_vu: bool = false;
        let mut i: usize = 0;
        while i < longueur
            invariant
                i <= longueur,
                longueur == texte@.len(),
                s@ == texte@,
                forall|j: int| 0 <= j < i ==> est_chiffre(texte@[j]) || texte@[j] == '.',
                point_vu == exists|j: int| 0 <= j < i && texte@[j] == '.',
                forall|j: int, k: int| 0 <= j < k < i ==> !(texte@[j] == '.' && texte@[k] == '.'),
            decreases longueur - i,
        {
            let c = s.get_char(i);
            let n = c as u32;
            if n == 46 {
                if point_vu {
                    return None;
                }
                point_vu = true;
            } else if !(48 <= n && n <= 57) {
                return None;
            }
            i += 1;
        }
        let premier = s.get_char(0) as u32;
        let dernier = s.get_char(longueur - 1) as u32;
        if premier == 46 || dernier == 46 {
            return None;
        }
        Some(Note { texte })
    }

    pub fn texte(&self) -> (r: &String)
        ensures
            r@ == self.texte_spec(),
    {
        &self.texte
    }

    pub fn copier(&self) -> (r: Note)
        ensures
            r == *self,
    {
        Note { texte: self.texte.clone() }
    }
}

/// Copies an optional text field; the copy equals the original.
pub fn copier_opt_texte(o: &Option<String>) -> (r: Option<String>)
    ensures
        r == *o,
{
    match o {
        Some(s) => Some(s.clone()),
        None => None,
    }
}

/// Copies an optional rating; the copy equals the original.
pub fn copier_opt_note(o: &Option<Note>) -> (r: Option<Note>)
    ensures
        r == *o,
{
    match o {
        Some(n) => Some(n.copier()),
        None => None,
    }
}

/// Copies a list of numeric ids; the copy holds the same ids.
pub fn copier_ids(v: &Vec<u32>) -> (r: Vec<u32>)
    ensures
        r@ == v@,
{
    let mut r: Vec<u32> = Vec::new();
    let mut i: usize = 0;
    while i < v.len()
        invariant
            i <= v@.len(),
            r@ == v@.subrange(0, i as int),
        decreases v@.len() - i,
    {
        r.push(v[i]);
        i += 1;
    }
    proof {
        assert(v@.subrange(0, v@.len() as int) =~= v@);
    }
    r
}

/// Copies an optional list of numeric ids.
pub fn copier_opt_ids(o: &Option<Vec<u32>>) -> (r: Option<Vec<u32>>)
    ensures
        match (o, &r) {
            (Some(a), Some(b)) => a@ == b@,
            (None, None) => true,
            _ => false,
        },
{
    match o {
        Some(v) => Some(copier_ids(v)),
        None => None,
    }
}

// Lookup entities: numeric id, base and translated name, slug, update stamp.

#[derive(Debug, PartialEq)]
pub struct CollectionIGDB {
    pub id: u32,
    pub name: String,
    pub slug: Option<String>,
    pub name_traduit: Option<String>,
    pub updated_at: Option<i64>,
}

#[derive(Debug, PartialEq)]
pub struct FranchiseIGDB {
    pub id: u32,
    pub name: String,
    pub slug: Option<String>,
    pub name_traduit: Option<String>,
    pub updated_at: Option<i64>,
}

#[derive(Debug, PartialEq)]
pub struct GenreIGDB {
    pub id: u32,
    pub name: String,
    pub slug: Option<String>,
    pub name_traduit: Option<String>,
    pub updated_at: Option<i64>,
}

#[derive(Debug, PartialEq)]
pub struct ThemeIGDB {
    pub id: u32,
    pub name: String,
    pub slug: Option<String>,
    pub name_traduit: Option<String>,
    pub updated_at: Option<i64>,
}

#[derive(Debug, PartialEq)]
pub struct MotCleIGDB {
    pub id: u32,
    pub name: String,
    pub slug: Option<String>,
    pub name_traduit: Option<String>,
    pub updated_at: Option<i64>,
}

// Category codes: read-only reference rows seeded at store creation.

#[derive(Debug, PartialEq)]
pub struct CategorieJeuIGDB {
    pub id: u32,
    pub name: String,
    pub name_traduit: Option<String>,
}

#[derive(Debug, PartialEq)]
pub struct CategoriePlateformeIGDB {
    pub id: u32,
    pub name: String,
    pub name_traduit: Option<String>,
}

// Media entities: numeric id, URL, size — no translation overlay.

#[derive(Debug, PartialEq)]
pub struct CouvertureIGDB {
    pub id: u32,
    pub url: String,
    pub width: u32,
    pub height: u32,
}

#[derive(Debug, PartialEq)]
pub struct IllustrationIGDB {
    pub id: u32,
    pub url: String,
    pub width: u32,
    pub height: u32,
}

#[derive(Debug, PartialEq)]
pub struct CaptureEcranIGDB {
    pub id: u32,
    pub url: String,
    pub width: u32,
    pub height: u32,
}

#[derive(Debug, PartialEq)]
pub struct LogoPlateformeIGDB {
    pub id: u32,
    pub url: String,
    pub width: u32,
    pub height: u32,
}

#[derive(Debug, PartialEq)]
pub struct LogoEntrepriseIGDB {
    pub id: u32,
    pub url: String,
    pub width: u32,
    pub height: u32,
}

#[derive(Debug, PartialEq)]
pub struct VideoIGDB {
    pub id: u32,
    pub name: String,
    pub name_traduit: Option<String>,
    pub video_id: Option<String>,
}

#[derive(Debug, PartialEq)]
pub struct NomAlternatifIGDB {
    pub id: u32,
    pub comment: Option<String>,
    pub name: String,
    pub game: Option<u32>,
}

#[derive(Debug, PartialEq)]
pub struct PlateformeIGDB {
    pub id: u32,
    pub name: String,
    pub slug: Option<String>,
    pub name_traduit: Option<String>,
    pub summary: Option<String>,
    pub summary_traduit: Option<String>,
    pub category: Option<u8>,
    pub platform_logo: Option<LogoPlateformeIGDB>,
    pub updated_at: Option<i64>,
}

#[derive(Debug, PartialEq)]
pub struct EntrepriseIGDB {
    pub id: u32,
    pub name: String,
    pub slug: Option<String>,
    pub name_traduit: Option<String>,
    pub developed: Option<Vec<u32>>,
    pub published: Option<Vec<u32>>,
    pub description: Option<String>,
    pub description_traduit: Option<String>,
    pub parent: Option<u32>,
    pub logo: Option<LogoEntrepriseIGDB>,
    pub start_date: Option<i64>,
    pub updated_at: Option<i64>,
}

/// The composite metadata record for one title, keyed by the remote source's
/// numeric id. Id `0` is the reserved sentinel for an unknown game.
#[derive(Debug, PartialEq)]
pub struct JeuIGDB {
    pub id: u32,
    pub name: String,
    pub slug: Option<String>,
    pub name_traduit: Option<String>,
    pub alternative_names: Option<Vec<NomAlternatifIGDB>>,
    pub storyline: Option<String>,
    pub summary: Option<String>,
    pub storyline_traduit: Option<String>,
    pub summary_traduit: Option<String>,
    pub first_release_date: Option<i64>,
    pub collection: Option<CollectionIGDB>,
    pub franchise: Option<FranchiseIGDB>,
    pub category: Option<u8>,
    pub genres: Option<Vec<GenreIGDB>>,
    pub themes: Option<Vec<ThemeIGDB>>,
    pub keywords: Option<Vec<MotCleIGDB>>,
    pub platforms: Option<Vec<u32>>,
    pub remakes: Option<Vec<u32>>,
    pub remasters: Option<Vec<u32>>,
    pub similar_games: Option<Vec<u32>>,
    pub rating: Option<Note>,
    pub rating_count: Option<u32>,
    pub cover: Option<CouvertureIGDB>,
    pub artworks: Option<Vec<IllustrationIGDB>>,
    pub screenshots: Option<Vec<CaptureEcranIGDB>>,
    pub videos: Option<Vec<VideoIGDB>>,
    pub updated_at: Option<i64>,
}

/// A catalog entry: the local record linking a file path to a resolved game.
/// The path is the sole identity of an entry.
#[derive(Debug, PartialEq)]
pub struct Jeu {
    pub jeu: Option<u32>,
    pub chemin: String,
    pub nom: String,
    pub langue: String,
}

impl Jeu {
    pub fn copier(&self) -> (r: Jeu)
        ensures
            r == *self,
    {
        Jeu {
            jeu: self.jeu,
            chemin: self.chemin.clone(),
            nom: self.nom.clone(),
            langue: self.langue.clone(),
        }
    }
}

} // verus!
