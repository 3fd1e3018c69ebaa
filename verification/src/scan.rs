//! The catalog scanner and the identification pipeline: walking the game
//! tree to a bounded depth, cleaning vanished entries out of the catalog,
//! and driving one candidate file from its parsed name to a written catalog
//! entry. The filesystem, the remote lookups and the translation round trip
//! stay outside the library: callers hand in what they read and receive, and
//! every decision in between is made here.
use vstd::prelude::*;

use crate::analyse::{analyser_chemin, id_chemin_spec, langue_chemin_spec, titre_spec};
use crate::config::{Emulateur, LudothequeConfig};
use crate::erreurs::TraitErreur;
use crate::interface::{
    chemins_uniques, cles_de, contient_cle, enregistre_chemin, enregistre_option,
    enregistre_tous, ligne_de, remplace_aretes, traduction_table, trouve_chemin, upsert,
    vue_liste, BaseDonnees, CompatibleSQL,
};
use crate::objet::{Jeu, JeuIGDB};

verus! {

// The recognized extensions.

/// The extensions of all configured emulators, in configuration order.
pub open spec fn toutes_extensions(es: Seq<Emulateur>) -> Seq<String>
    decreases es.len(),
{
    if es.len() == 0 {
        Seq::empty()
    } else {
        toutes_extensions(es.drop_last()) + es.last().extensions@
    }
}

/// Collects the recognized extensions out of the emulator mappings.
pub fn extensions_valables(config: &LudothequeConfig) -> (r: Vec<String>)
    ensures
        r@ == toutes_extensions(config.emulateurs@),
{
    let mut ext: Vec<String> = Vec::new();
    let mut i: usize = 0;
    proof {
        assert(toutes_extensions(config.emulateurs@.subrange(0, 0)) =~= Seq::<String>::empty());
    }
    while i < config.emulateurs.len()
        invariant
            i <= config.emulateurs@.len(),
            ext@ == toutes_extensions(config.emulateurs@.subrange(0, i as int)),
        decreases config.emulateurs@.len() - i,
    {
        proof {
            let avant = config.emulateurs@.subrange(0, i as int);
            let apres = config.emulateurs@.subrange(0, i as int + 1);
            assert(apres.drop_last() =~= avant);
            assert(apres.last() == config.emulateurs@[i as int]);
        }
        let liste = &config.emulateurs[i].extensions;
        let mut j: usize = 0;
        while j < liste.len()
            invariant
                j <= liste@.len(),
                liste@ == config.emulateurs@[i as int].extensions@,
                i < config.emulateurs@.len(),
                ext@ == toutes_extensions(config.emulateurs@.subrange(0, i as int))
                    + liste@.subrange(0, j as int),
            decreases liste@.len() - j,
        {
            ext.push(liste[j].clone());
            proof {
                assert(liste@.subrange(0, j as int).push(liste@[j as int]) =~= liste@.subrange(
                    0,
                    j as int + 1,
                ));
                assert(ext@ =~= toutes_extensions(config.emulateurs@.subrange(0, i as int))
                    + liste@.subrange(0, j as int + 1));
            }
            j += 1;
        }
        proof {
            assert(liste@.subrange(0, liste@.len() as int) =~= liste@);
            assert(ext@ =~= toutes_extensions(config.emulateurs@.subrange(0, i as int + 1)));
        }
        i += 1;
    }
    proof {
        assert(config.emulateurs@.subrange(0, config.emulateurs@.len() as int)
            =~= config.emulateurs@);
    }
    ext
}

/// True when the path ends with the suffix and is strictly longer than it.
pub open spec fn termine_par(chemin: Seq<char>, suffixe: Seq<char>) -> bool {
    chemin.len() > suffixe.len() && chemin.subrange(
        chemin.len() - suffixe.len(),
        chemin.len() as int,
    ) == suffixe
}

/// Whether the path ends with the extension text.
pub fn fini_par(chemin: String, ext: String) -> (r: bool)
    ensures
        r == termine_par(chemin@, ext@),
{
    let c = chemin.as_str();
    let e = ext.as_str();
    let n = c.unicode_len();
    let l = e.unicode_len();
    if n <= l {
        return false;
    }
    let mut j: usize = 0;
    while j < l
        invariant
            j <= l,
            n == chemin@.len(),
            l == ext@.len(),
            n > l,
            c@ == chemin@,
            e@ == ext@,
            forall|k: int| 0 <= k < j ==> chemin@[n - l + k] == ext@[k],
        decreases l - j,
    {
        if !(c.get_char(n - l + j) == e.get_char(j)) {
            proof {
                assert(chemin@.subrange(n - l, n as int)[j as int] != ext@[j as int]);
            }
            return false;
        }
        j += 1;
    }
    proof {
        assert(chemin@.subrange(n - l, n as int) =~= ext@);
    }
    true
}

// The directory walk, over the tree the caller read from disk.

/// One filesystem node the caller discovered: its path, whether it is a
/// directory, and — for a directory already read — its children.
#[derive(Debug)]
pub struct Noeud {
    pub chemin: String,
    pub est_dossier: bool,
    pub enfants: Vec<Noeud>,
}

/// The candidate paths one file node yields: its path once for every
/// recognized extension it ends with, tried as a dot and the extension.
pub open spec fn correspondances(chemin: Seq<char>, exts: Seq<String>) -> Seq<Seq<char>>
    decreases exts.len(),
{
    if exts.len() == 0 {
        Seq::empty()
    } else {
        correspondances(chemin, exts.drop_last()) + if termine_par(
            chemin,
            seq!['.'] + exts.last()@,
        ) {
            seq![chemin]
        } else {
            Seq::empty()
        }
    }
}

/// The candidate paths below one node: a directory within the depth limit
/// contributes its children in order; anything else is tested against the
/// recognized extensions.
pub open spec fn jeux_noeud(n: Noeud, profondeur: int, limite: int, exts: Seq<String>) -> Seq<
    Seq<char>,
>
    decreases n, 1int,
{
    if n.est_dossier && profondeur < limite {
        jeux_noeuds(n.enfants@, profondeur + 1, limite, exts)
    } else {
        correspondances(n.chemin@, exts)
    }
}

/// The candidate paths below a list of nodes, in order.
pub open spec fn jeux_noeuds(ns: Seq<Noeud>, profondeur: int, limite: int, exts: Seq<String>)
    -> Seq<Seq<char>>
    decreases ns, 0int, ns.len(),
{
    if ns.len() == 0 {
        Seq::empty()
    } else {
        jeux_noeud(ns[0], profondeur, limite, exts) + jeux_noeuds(
            ns.drop_first(),
            profondeur,
            limite,
            exts,
        )
    }
}

/// Appends the candidate paths below one node.
fn chercher_noeud(
    n: &Noeud,
    profondeur: u32,
    limite: u32,
    extensions: &Vec<String>,
    sortie: &mut Vec<String>,
)
    ensures
        final(sortie).deep_view() == old(sortie).deep_view() + jeux_noeud(
            *n,
            profondeur as int,
            limite as int,
            extensions@,
        ),
    decreases *n,
{
    if n.est_dossier && profondeur < limite {
        let mut i: usize = 0;
        proof {
            assert(old(sortie).deep_view() + jeux_noeuds(
                n.enfants@.subrange(0, 0),
                profondeur + 1,
                limite as int,
                extensions@,
            ) =~= old(sortie).deep_view());
        }
        while i < n.enfants.len()
            invariant
                i <= n.enfants@.len(),
                profondeur < limite,
                sortie.deep_view() == old(sortie).deep_view() + jeux_noeuds(
                    n.enfants@.subrange(0, i as int),
                    profondeur + 1,
                    limite as int,
                    extensions@,
                ),
            decreases n.enfants@.len() - i,
        {
            proof {
                lemma_jeux_noeuds_pas(
                    n.enfants@,
                    i as int,
                    profondeur + 1,
                    limite as int,
                    extensions@,
                );
            }
            chercher_noeud(&n.enfants[i], profondeur + 1, limite, extensions, sortie);
            i += 1;
        }
        proof {
            assert(n.enfants@.subrange(0, n.enfants@.len() as int) =~= n.enfants@);
        }
    } else {
        let mut i: usize = 0;
        proof {
            assert(correspondances(n.chemin@, extensions@.subrange(0, 0))
                =~= Seq::<Seq<char>>::empty());
            assert(sortie.deep_view() + correspondances(n.chemin@, extensions@.subrange(0, 0))
                =~= sortie.deep_view());
        }
        while i < extensions.len()
            invariant
                i <= extensions@.len(),
                sortie.deep_view() == old(sortie).deep_view() + correspondances(
                    n.chemin@,
                    extensions@.subrange(0, i as int),
                ),
            decreases extensions@.len() - i,
        {
            proof {
                let avant = extensions@.subrange(0, i as int);
                let apres = extensions@.subrange(0, i as int + 1);
                assert(apres.drop_last() =~= avant);
                assert(apres.last() == extensions@[i as int]);
            }
            let mut point = String::from_str(".");
            point.append(extensions[i].as_str());
            proof {
                reveal_strlit(".");
                assert(point@ =~= seq!['.'] + extensions@[i as int]@);
            }
            let ghost deja = sortie.deep_view();
            if fini_par(n.chemin.clone(), point) {
                sortie.push(n.chemin.clone());
                proof {
                    assert(sortie@.last()@ == n.chemin@);
                    assert(sortie.deep_view() =~= deja.push(n.chemin@));
                    assert(sortie.deep_view() =~= old(sortie).deep_view() + correspondances(
                        n.chemin@,
                        extensions@.subrange(0, i as int + 1),
                    ));
                }
            } else {
                proof {
                    assert(sortie.deep_view() =~= old(sortie).deep_view() + correspondances(
                        n.chemin@,
                        extensions@.subrange(0, i as int + 1),
                    ));
                }
            }
            i += 1;
        }
        proof {
            assert(extensions@.subrange(0, extensions@.len() as int) =~= extensions@);
        }
    }
}

/// Walking one more node extends the walked prefix.
proof fn lemma_jeux_noeuds_pas(
    ns: Seq<Noeud>,
    i: int,
    profondeur: int,
    limite: int,
    exts: Seq<String>,
)
    requires
        0 <= i < ns.len(),
    ensures
        jeux_noeuds(ns.subrange(0, i + 1), profondeur, limite, exts) == jeux_noeuds(
            ns.subrange(0, i),
            profondeur,
            limite,
            exts,
        ) + jeux_noeud(ns[i], profondeur, limite, exts),
    decreases i,
{
    if i == 0 {
        let s1 = ns.subrange(0, 1);
        assert(s1[0] == ns[0]);
        assert(s1.drop_first() =~= Seq::<Noeud>::empty());
        assert(jeux_noeuds(s1, profondeur, limite, exts) == jeux_noeud(
            s1[0],
            profondeur,
            limite,
            exts,
        ) + jeux_noeuds(s1.drop_first(), profondeur, limite, exts));
        assert(jeux_noeuds(Seq::<Noeud>::empty(), profondeur, limite, exts)
            == Seq::<Seq<char>>::empty());
        assert(jeux_noeuds(ns.subrange(0, 0), profondeur, limite, exts)
            =~= Seq::<Seq<char>>::empty());
        assert(jeux_noeuds(s1, profondeur, limite, exts) =~= jeux_noeud(
            ns[0],
            profondeur,
            limite,
            exts,
        ));
    } else {
        lemma_jeux_noeuds_pas(ns.drop_first(), i - 1, profondeur, limite, exts);
        let a = ns.subrange(0, i + 1);
        let b = ns.subrange(0, i);
        assert(a[0] == ns[0]);
        assert(b[0] == ns[0]);
        assert(a.drop_first() =~= ns.drop_first().subrange(0, i));
        assert(b.drop_first() =~= ns.drop_first().subrange(0, i - 1));
        assert(ns.drop_first()[i - 1] == ns[i]);
    }
}

/// Walks the discovered tree to the depth limit and collects every
/// candidate path, in walk order; the order carries no meaning.
pub fn trouver_jeux(racines: &Vec<Noeud>, limite: u32, extensions: &Vec<String>) -> (r: Vec<
    String,
>)
    ensures
        r.deep_view() == jeux_noeuds(racines@, 0, limite as int, extensions@),
{
    let mut sortie: Vec<String> = Vec::new();
    let mut i: usize = 0;
    proof {
        assert(jeux_noeuds(racines@.subrange(0, 0), 0, limite as int, extensions@)
            =~= Seq::<Seq<char>>::empty());
        assert(sortie.deep_view() =~= jeux_noeuds(
            racines@.subrange(0, 0),
            0,
            limite as int,
            extensions@,
        ));
    }
    while i < racines.len()
        invariant
            i <= racines@.len(),
            sortie.deep_view() == jeux_noeuds(
                racines@.subrange(0, i as int),
                0,
                limite as int,
                extensions@,
            ),
        decreases racines@.len() - i,
    {
        proof {
            lemma_jeux_noeuds_pas(racines@, i as int, 0, limite as int, extensions@);
        }
        chercher_noeud(&racines[i], 0, limite, extensions, &mut sortie);
        i += 1;
    }
    proof {
        assert(racines@.subrange(0, racines@.len() as int) =~= racines@);
    }
    sortie
}

// The cleanup pass.

/// Keeps the catalog entries whose path is among the present ones.
pub open spec fn garde_presents(presents: Seq<Seq<char>>) -> spec_fn(Jeu) -> bool {
    |j: Jeu| presents.contains(j.chemin@)
}

/// Cleanup: removes a catalog entry exactly when its path is not among the
/// paths found present on disk; entries with present paths are untouched.
pub fn nettoyer_catalogue(db: &mut BaseDonnees, presents: &Vec<String>)
    ensures
        final(db).catalogue@ == old(db).catalogue@.filter(garde_presents(presents.deep_view())),
        (*final(db) == BaseDonnees { catalogue: final(db).catalogue, ..*old(db) }),
        old(db).bien_formee() ==> final(db).bien_formee(),
{
    let ghost pred = garde_presents(presents.deep_view());
    let mut reste: Vec<Jeu> = Vec::new();
    let mut i: usize = 0;
    proof {
        reveal(Seq::filter);
        assert(old(db).catalogue@.subrange(0, 0).filter(pred) =~= Seq::<Jeu>::empty());
    }
    while i < db.catalogue.len()
        invariant
            pred == garde_presents(presents.deep_view()),
            i <= db.catalogue@.len(),
            db.catalogue@ == old(db).catalogue@,
            reste@ == db.catalogue@.subrange(0, i as int).filter(pred),
        decreases db.catalogue@.len() - i,
    {
        proof {
            reveal(Seq::filter);
            let avant = db.catalogue@.subrange(0, i as int);
            let apres = db.catalogue@.subrange(0, i as int + 1);
            assert(apres.drop_last() =~= avant);
            assert(apres.last() == db.catalogue@[i as int]);
            if pred(db.catalogue@[i as int]) {
                assert(apres.filter(pred) == avant.filter(pred).push(db.catalogue@[i as int]));
            } else {
                assert(apres.filter(pred) == avant.filter(pred));
            }
        }
        let mut present: bool = false;
        let mut j: usize = 0;
        while j < presents.len()
            invariant
                j <= presents@.len(),
                i < db.catalogue@.len(),
                db.catalogue@ == old(db).catalogue@,
                presents.deep_view().len() == presents@.len(),
                forall|k: int|
                    0 <= k < presents@.len() ==> presents.deep_view()[k] == presents@[k]@,
                present == exists|k: int|
                    0 <= k < j && presents@[k]@ == db.catalogue@[i as int].chemin@,
            decreases presents@.len() - j,
        {
            if presents[j] == db.catalogue[i].chemin {
                present = true;
            }
            j += 1;
        }
        proof {
            if present {
                let k = choose|k: int|
                    0 <= k < presents@.len() && presents@[k]@ == db.catalogue@[
                        i as int
                    ].chemin@;
                assert(presents.deep_view()[k] == db.catalogue@[i as int].chemin@);
                assert(pred(db.catalogue@[i as int]));
            } else {
                if pred(db.catalogue@[i as int]) {
                    let k = choose|k: int|
                        0 <= k < presents.deep_view().len() && presents.deep_view()[k]
                            == db.catalogue@[i as int].chemin@;
                    assert(presents@[k]@ == db.catalogue@[i as int].chemin@);
                }
            }
        }
        if present {
            let garde = db.catalogue[i].copier();
            reste.push(garde);
        }
        i += 1;
    }
    proof {
        assert(db.catalogue@.subrange(0, db.catalogue@.len() as int) =~= db.catalogue@);
    }
    db.catalogue = reste;
    proof {
        if chemins_uniques(old(db).catalogue@) {
            crate::interface::lemma_filtre_chemins_uniques(old(db).catalogue@, pred);
        }
    }
}


// The language tag is stored upper-cased.

/// The upper-case counterpart of an ASCII letter; anything else stands.
pub open spec fn maj_car(c: char) -> char {
    if c == 'a' {
        'A'
    } else if c == 'b' {
        'B'
    } else if c == 'c' {
        'C'
    } else if c == 'd' {
        'D'
    } else if c == 'e' {
        'E'
    } else if c == 'f' {
        'F'
    } else if c == 'g' {
        'G'
    } else if c == 'h' {
        'H'
    } else if c == 'i' {
        'I'
    } else if c == 'j' {
        'J'
    } else if c == 'k' {
        'K'
    } else if c == 'l' {
        'L'
    } else if c == 'm' {
        'M'
    } else if c == 'n' {
        'N'
    } else if c == 'o' {
        'O'
    } else if c == 'p' {
        'P'
    } else if c == 'q' {
        'Q'
    } else if c == 'r' {
        'R'
    } else if c == 's' {
        'S'
    } else if c == 't' {
        'T'
    } else if c == 'u' {
        'U'
    } else if c == 'v' {
        'V'
    } else if c == 'w' {
        'W'
    } else if c == 'x' {
        'X'
    } else if c == 'y' {
        'Y'
    } else if c == 'z' {
        'Z'
    } else {
        c
    }
}

/// The text with each ASCII letter upper-cased.
pub open spec fn majuscule_seq(s: Seq<char>) -> Seq<char>
    decreases s.len(),
{
    if s.len() == 0 {
        Seq::empty()
    } else {
        majuscule_seq(s.drop_last()) + seq![maj_car(s.last())]
    }
}

/// The upper-case text of one ASCII lower-case letter.
fn majuscule_car_texte(c: char) -> (r: &'static str)
    requires
        97 <= c as u32 <= 122,
    ensures
        r@ == seq![maj_car(c)],
{
    proof {
        reveal_strlit("A");
        reveal_strlit("B");
        reveal_strlit("C");
        reveal_strlit("D");
        reveal_strlit("E");
        reveal_strlit("F");
        reveal_strlit("G");
        reveal_strlit("H");
        reveal_strlit("I");
        reveal_strlit("J");
        reveal_strlit("K");
        reveal_strlit("L");
        reveal_strlit("M");
        reveal_strlit("N");
        reveal_strlit("O");
        reveal_strlit("P");
        reveal_strlit("Q");
        reveal_strlit("R");
        reveal_strlit("S");
        reveal_strlit("T");
        reveal_strlit("U");
        reveal_strlit("V");
        reveal_strlit("W");
        reveal_strlit("X");
        reveal_strlit("Y");
        reveal_strlit("Z");
    }
    match c {
        'a' => "A",
        'b' => "B",
        'c' => "C",
        'd' => "D",
        'e' => "E",
        'f' => "F",
        'g' => "G",
        'h' => "H",
        'i' => "I",
        'j' => "J",
        'k' => "K",
        'l' => "L",
        'm' => "M",
        'n' => "N",
        'o' => "O",
        'p' => "P",
        'q' => "Q",
        'r' => "R",
        's' => "S",
        't' => "T",
        'u' => "U",
        'v' => "V",
        'w' => "W",
        'x' => "X",
        'y' => "Y",
        _ => "Z",
    }
}

/// The text with each ASCII letter upper-cased.
pub fn majuscule(s: &str) -> (r: String)
    ensures
        r@ == majuscule_seq(s@),
{
    let longueur = s.unicode_len();
    let mut sortie = String::new();
    let mut i: usize = 0;
    proof {
        assert(majuscule_seq(s@.subrange(0, 0)) =~= Seq::<char>::empty());
        assert(sortie@ =~= majuscule_seq(s@.subrange(0, 0)));
    }
    while i < longueur
        invariant
            i <= longueur,
            longueur == s@.len(),
            sortie@ == majuscule_seq(s@.subrange(0, i as int)),
        decreases longueur - i,
    {
        proof {
            let avant = s@.subrange(0, i as int);
            let apres = s@.subrange(0, i as int + 1);
            assert(apres.drop_last() =~= avant);
            assert(apres.last() == s@[i as int]);
        }
        let c = s.get_char(i);
        let n = c as u32;
        if 97 <= n && n <= 122 {
            sortie.append(majuscule_car_texte(c));
        } else {
            sortie.append(s.substring_char(i, i + 1));
            proof {
                assert(s@.subrange(i as int, i as int + 1) =~= seq![s@[i as int]]);
                assert(seq![s@[i as int]] =~= seq![maj_car(s@[i as int])]);
            }
        }
        proof {
            assert(sortie@ =~= majuscule_seq(s@.subrange(0, i as int + 1)));
        }
        i += 1;
    }
    proof {
        assert(s@.subrange(0, s@.len() as int) =~= s@);
    }
    sortie
}

// The identification pipeline, one candidate path at a time.

/// True when the path is already cataloged against a game that the store
/// still holds: the pipeline then ends with no further action.
pub open spec fn cache_valide(catalogue: Seq<Jeu>, jeux: Seq<crate::interface::LigneJeu>, chemin: Seq<char>) -> bool {
    match trouve_chemin(catalogue, chemin) {
        Some(e) => match e.jeu {
            Some(id) => contient_cle(jeux, id),
            None => false,
        },
        None => false,
    }
}

/// The id a stale catalog entry falls back to: the linked id of an entry
/// whose game row has vanished from the store.
pub open spec fn id_retombee(catalogue: Seq<Jeu>, jeux: Seq<crate::interface::LigneJeu>, chemin: Seq<char>) -> Option<u32> {
    match trouve_chemin(catalogue, chemin) {
        Some(e) => match e.jeu {
            Some(id) => if !contient_cle(jeux, id) {
                Some(id)
            } else {
                None
            },
            None => None,
        },
        None => None,
    }
}

/// The id the pipeline resolves by: an explicit id in the filename wins,
/// else the stale entry's id, else nothing.
pub open spec fn id_effectif(catalogue: Seq<Jeu>, jeux: Seq<crate::interface::LigneJeu>, chemin: Seq<char>) -> Option<nat> {
    match id_chemin_spec(chemin) {
        Some(n) => Some(n),
        None => match id_retombee(catalogue, jeux, chemin) {
            Some(id) => Some(id as nat),
            None => None,
        },
    }
}

/// Where the pipeline finds the record of one candidate path.
#[derive(Debug)]
pub enum Resolution {
    DejaCatalogue,
    RequeteParId(u32),
    RequeteParTitre(String),
    Sentinelle,
}

/// What the pipeline decided about one candidate path before any remote
/// call: its parsed title and language, and where its record comes from.
#[derive(Debug)]
pub struct Preparation {
    pub titre: String,
    pub langue: Option<String>,
    pub resolution: Resolution,
}

/// The first half of identifying one path: parse the filename, check the
/// catalog, and decide the source of truth — the pipeline's state machine
/// up to its remote calls, which the caller performs.
pub fn preparer_identification(chemin: &String, db: &BaseDonnees) -> (r: Preparation)
    ensures
        r.titre@ == titre_spec(chemin@),
        (match (&r.langue, langue_chemin_spec(chemin@)) {
            (Some(l), Some(w)) => l@ == w,
            (None, None) => true,
            _ => false,
        }),
        (match &r.resolution {
            Resolution::DejaCatalogue => cache_valide(db.catalogue@, db.jeux@, chemin@),
            Resolution::RequeteParId(id) => !cache_valide(db.catalogue@, db.jeux@, chemin@)
                && id_effectif(db.catalogue@, db.jeux@, chemin@) == Some(*id as nat) && *id > 0,
            Resolution::Sentinelle => !cache_valide(db.catalogue@, db.jeux@, chemin@)
                && id_effectif(db.catalogue@, db.jeux@, chemin@) == Some(0 as nat),
            Resolution::RequeteParTitre(t) => !cache_valide(db.catalogue@, db.jeux@, chemin@)
                && id_effectif(db.catalogue@, db.jeux@, chemin@) is None && t@ == titre_spec(
                chemin@,
            ),
        }),
{
    let analyse = analyser_chemin(chemin.as_str());
    let entree = Jeu::charger_db(chemin, db);
    let mut cache: bool = false;
    let mut retombee: Option<u32> = None;
    match &entree {
        Some(e) => match e.jeu {
            Some(id) => {
                if JeuIGDB::existe_db(id, db) {
                    cache = true;
                } else {
                    retombee = Some(id);
                }
            },
            None => {},
        },
        None => {},
    }
    let resolution: Resolution = if cache {
        Resolution::DejaCatalogue
    } else {
        let effectif: Option<u32> = match analyse.id {
            Some(n) => Some(n),
            None => retombee,
        };
        match effectif {
            Some(n) => if n > 0 {
                Resolution::RequeteParId(n)
            } else {
                Resolution::Sentinelle
            },
            None => Resolution::RequeteParTitre(analyse.titre.clone()),
        }
    };
    Preparation { titre: analyse.titre, langue: analyse.langue, resolution }
}

/// The display name of a new catalog entry: the translated name when the
/// translation ran, else the resolved game's name — unless the game is the
/// sentinel, whose entries carry the cleaned working title.
pub open spec fn nom_affiche(
    jeu_id: u32,
    nom_jeu: Seq<char>,
    nom_traduit: Option<Seq<char>>,
    titre: Seq<char>,
) -> Seq<char> {
    if jeu_id == 0 {
        titre
    } else {
        match nom_traduit {
            Some(t) => t,
            None => nom_jeu,
        }
    }
}

/// The language column of a new catalog entry: the parsed tag upper-cased,
/// empty when none was parsed.
pub open spec fn langue_entree(langue: Option<Seq<char>>) -> Seq<char> {
    match langue {
        Some(l) => majuscule_seq(l),
        None => Seq::empty(),
    }
}

/// The catalog entry the pipeline writes for one identified path.
pub open spec fn est_entree_identifiee(
    e: Jeu,
    chemin: Seq<char>,
    titre: Seq<char>,
    langue: Option<Seq<char>>,
    jeu_id: u32,
    nom_jeu: Seq<char>,
    nom_traduit: Option<Seq<char>>,
) -> bool {
    &&& e.jeu == Some(jeu_id)
    &&& e.chemin@ == chemin
    &&& e.nom@ == nom_affiche(jeu_id, nom_jeu, nom_traduit, titre)
    &&& e.langue@ == langue_entree(langue)
}

/// The view of an optional translated name.
pub open spec fn vue_nom(o: Option<&String>) -> Option<Seq<char>> {
    match o {
        Some(t) => Some(t@),
        None => None,
    }
}

/// The view of an optional language tag.
pub open spec fn vue_langue(o: Option<String>) -> Option<Seq<char>> {
    match o {
        Some(l) => Some(l@),
        None => None,
    }
}

/// The last pipeline step: writes the catalog entry linking the path to the
/// resolved game, under the display-name and language rules — and never
/// touches an entry the catalog already holds for that path.
pub fn cataloguer(
    db: &mut BaseDonnees,
    chemin: &String,
    titre: &String,
    langue: &Option<String>,
    jeu: &JeuIGDB,
    nom_traduit: Option<&String>,
)
    ensures
        exists|e: Jeu|
            #![auto]
            est_entree_identifiee(
                e,
                chemin@,
                titre@,
                vue_langue(*langue),
                jeu.id,
                jeu.name@,
                vue_nom(nom_traduit),
            ) && final(db).catalogue@ == enregistre_chemin(old(db).catalogue@, e),
        (*final(db) == BaseDonnees { catalogue: final(db).catalogue, ..*old(db) }),
        old(db).bien_formee() ==> final(db).bien_formee(),
{
    let nom: String = if jeu.id == 0 {
        titre.clone()
    } else {
        match nom_traduit {
            Some(t) => t.clone(),
            None => jeu.name.clone(),
        }
    };
    let langue_texte: String = match langue {
        Some(l) => majuscule(l.as_str()),
        None => String::new(),
    };
    let entree = Jeu {
        jeu: Some(jeu.id),
        chemin: chemin.clone(),
        nom,
        langue: langue_texte,
    };
    proof {
        assert(est_entree_identifiee(
            entree,
            chemin@,
            titre@,
            vue_langue(*langue),
            jeu.id,
            jeu.name@,
            vue_nom(nom_traduit),
        ));
    }
    entree.enregistrer_db(db);
}

/// The name a translated game contributes to the entry, when one ran.
pub open spec fn nom_traduction(traduction: Option<&JeuIGDB>) -> Option<Seq<char>> {
    match traduction {
        Some(t) => Some(t.name@),
        None => None,
    }
}

/// The first game of a remote answer; an empty answer means the
/// identification logically failed — no match, or an invalid explicit id.
pub fn premier_resultat(resultats: &Vec<JeuIGDB>) -> (r: Option<&JeuIGDB>)
    ensures
        (match r {
            Some(j) => resultats@.len() > 0 && *j == resultats@[0],
            None => resultats@.len() == 0,
        }),
{
    if resultats.len() > 0 {
        Some(&resultats[0])
    } else {
        None
    }
}

/// The second half of identifying one path, once the caller holds the
/// resolved game: save the game recursively; write the translated overlay
/// when a translation came back — a translation failure upstream simply
/// leaves it out, undoing nothing; and write the catalog entry last. The
/// steps are not one transaction.
#[verifier::rlimit(100)]
#[verifier::spinoff_prover]
pub fn achever_identification(
    db: &mut BaseDonnees,
    chemin: &String,
    titre: &String,
    langue: &Option<String>,
    jeu: &JeuIGDB,
    traduction: Option<&JeuIGDB>,
)
    ensures
        (match traduction {
            Some(t) => final(db).jeux@ == traduction_table(
                upsert(old(db).jeux@, ligne_de(*jeu)),
                ligne_de(*t),
            ),
            None => final(db).jeux@ == upsert(old(db).jeux@, ligne_de(*jeu)),
        }),
        final(db).franchises@ == enregistre_option(old(db).franchises@, jeu.franchise),
        final(db).collections@ == enregistre_option(old(db).collections@, jeu.collection),
        final(db).genres@ == enregistre_tous(old(db).genres@, vue_liste(jeu.genres)),
        final(db).themes@ == enregistre_tous(old(db).themes@, vue_liste(jeu.themes)),
        final(db).mots_cles@ == enregistre_tous(old(db).mots_cles@, vue_liste(jeu.keywords)),
        final(db).couvertures@ == enregistre_option(old(db).couvertures@, jeu.cover),
        final(db).illustrations@ == enregistre_tous(
            old(db).illustrations@,
            vue_liste(jeu.artworks),
        ),
        final(db).captures_ecran@ == enregistre_tous(
            old(db).captures_ecran@,
            vue_liste(jeu.screenshots),
        ),
        final(db).videos@ == enregistre_tous(old(db).videos@, vue_liste(jeu.videos)),
        final(db).jeux_genres@ == remplace_aretes(
            old(db).jeux_genres@,
            jeu.id,
            cles_de(vue_liste(jeu.genres)),
        ),
        final(db).jeux_themes@ == remplace_aretes(
            old(db).jeux_themes@,
            jeu.id,
            cles_de(vue_liste(jeu.themes)),
        ),
        final(db).jeux_mots_cles@ == remplace_aretes(
            old(db).jeux_mots_cles@,
            jeu.id,
            cles_de(vue_liste(jeu.keywords)),
        ),
        final(db).jeux_plateformes@ == remplace_aretes(
            old(db).jeux_plateformes@,
            jeu.id,
            vue_liste(jeu.platforms),
        ),
        final(db).jeux_remakes@ == remplace_aretes(
            old(db).jeux_remakes@,
            jeu.id,
            vue_liste(jeu.remakes),
        ),
        final(db).jeux_remasters@ == remplace_aretes(
            old(db).jeux_remasters@,
            jeu.id,
            vue_liste(jeu.remasters),
        ),
        final(db).jeux_similaires@ == remplace_aretes(
            old(db).jeux_similaires@,
            jeu.id,
            vue_liste(jeu.similar_games),
        ),
        final(db).jeux_illustrations@ == remplace_aretes(
            old(db).jeux_illustrations@,
            jeu.id,
            cles_de(vue_liste(jeu.artworks)),
        ),
        final(db).jeux_captures_ecran@ == remplace_aretes(
            old(db).jeux_captures_ecran@,
            jeu.id,
            cles_de(vue_liste(jeu.screenshots)),
        ),
        final(db).jeux_videos@ == remplace_aretes(
            old(db).jeux_videos@,
            jeu.id,
            cles_de(vue_liste(jeu.videos)),
        ),
        exists|e: Jeu|
            #![auto]
            est_entree_identifiee(
                e,
                chemin@,
                titre@,
                vue_langue(*langue),
                jeu.id,
                jeu.name@,
                nom_traduction(traduction),
            ) && final(db).catalogue@ == enregistre_chemin(old(db).catalogue@, e),
        (*final(db) == BaseDonnees {
            collections: final(db).collections,
            franchises: final(db).franchises,
            couvertures: final(db).couvertures,
            jeux: final(db).jeux,
            genres: final(db).genres,
            themes: final(db).themes,
            mots_cles: final(db).mots_cles,
            illustrations: final(db).illustrations,
            captures_ecran: final(db).captures_ecran,
            videos: final(db).videos,
            jeux_genres: final(db).jeux_genres,
            jeux_themes: final(db).jeux_themes,
            jeux_mots_cles: final(db).jeux_mots_cles,
            jeux_plateformes: final(db).jeux_plateformes,
            jeux_remakes: final(db).jeux_remakes,
            jeux_remasters: final(db).jeux_remasters,
            jeux_similaires: final(db).jeux_similaires,
            jeux_illustrations: final(db).jeux_illustrations,
            jeux_captures_ecran: final(db).jeux_captures_ecran,
            jeux_videos: final(db).jeux_videos,
            catalogue: final(db).catalogue,
            ..*old(db)
        }),
        old(db).bien_formee() ==> final(db).bien_formee(),
{
    jeu.enregistrer_db(db);
    match traduction {
        Some(t) => t.traduire_db(db),
        None => {},
    }
    let nom_traduit: Option<&String> = match traduction {
        Some(t) => Some(&t.name),
        None => None,
    };
    cataloguer(db, chemin, titre, langue, jeu, nom_traduit);
}

// The errors of one path's identification, reported to the caller and
// logged; one path's failure never stops the next.

/// The identification of one path failed for a stated reason.
pub struct ErreurIdentification {
    pub erreur: Option<String>,
    pub desc: &'static str,
    pub chemin: String,
}

impl ErreurIdentification {
    pub fn as_err<T>(self) -> (r: Result<T, Erreur>)
        ensures
            (r matches Err(e) && e matches Erreur::ErreurIdentification(inner) && inner == self),
    {
        Err(Erreur::ErreurIdentification(self))
    }
}

impl TraitErreur for ErreurIdentification {
    fn message(&self) -> String {
        let mut texte = String::from_str("Impossible d'identifier le jeu ");
        texte.append(self.chemin.as_str());
        texte.append(": ");
        texte.append(self.desc);
        texte
    }

    fn cause(&self) -> Option<String> {
        self.erreur.clone()
    }
}

/// The remote lookup for one path failed.
pub struct ErreurIdentificationIGDB {
    pub erreur: crate::igdb::Erreur,
    pub chemin_str: String,
}

impl ErreurIdentificationIGDB {
    pub fn as_err<T>(self) -> (r: Result<T, Erreur>)
        ensures
            (r matches Err(e) && e matches Erreur::ErreurIdentificationIGDB(inner) && inner
                == self),
    {
        Err(Erreur::ErreurIdentificationIGDB(self))
    }
}

impl TraitErreur for ErreurIdentificationIGDB {
    fn message(&self) -> String {
        let mut texte = String::from_str("Impossible d'identifier le jeu ");
        texte.append(self.chemin_str.as_str());
        texte.append(" avec l'API IGDB.");
        texte
    }

    fn cause(&self) -> Option<String> {
        Some(self.erreur.as_string())
    }
}

/// The translation round trip for one path failed; the already-persisted
/// base metadata stays.
pub struct ErreurTraduction {
    pub erreur: crate::openai::Erreur,
}

impl ErreurTraduction {
    pub fn as_err<T>(self) -> (r: Result<T, Erreur>)
        ensures
            (r matches Err(e) && e matches Erreur::ErreurTraduction(inner) && inner == self),
    {
        Err(Erreur::ErreurTraduction(self))
    }
}

impl TraitErreur for ErreurTraduction {
    fn message(&self) -> String {
        String::from_str("Impossible de traduire le jeu.")
    }

    fn cause(&self) -> Option<String> {
        Some(self.erreur.as_string())
    }
}

pub enum Erreur {
    ErreurIdentification(ErreurIdentification),
    ErreurIdentificationIGDB(ErreurIdentificationIGDB),
    ErreurTraduction(ErreurTraduction),
}

impl TraitErreur for Erreur {
    fn message(&self) -> String {
        match self {
            Erreur::ErreurIdentification(erreur) => erreur.message(),
            Erreur::ErreurIdentificationIGDB(erreur) => erreur.message(),
            Erreur::ErreurTraduction(erreur) => erreur.message(),
        }
    }

    fn cause(&self) -> Option<String> {
        match self {
            Erreur::ErreurIdentification(erreur) => erreur.cause(),
            Erreur::ErreurIdentificationIGDB(erreur) => erreur.cause(),
            Erreur::ErreurTraduction(erreur) => erreur.cause(),
        }
    }
}

/// Cleanup keeps an entry exactly when its path is among the present ones:
/// an entry leaves the catalog if and only if its path is gone, and entries
/// with present paths are untouched.
pub proof fn loi_nettoyage(catalogue: Seq<Jeu>, presents: Seq<Seq<char>>, e: Jeu)
    ensures
        catalogue.filter(garde_presents(presents)).contains(e) <==> (catalogue.contains(e)
            && presents.contains(e.chemin@)),
{
    let garde = garde_presents(presents);
    if catalogue.filter(garde).contains(e) {
        let i = choose|i: int|
            0 <= i < catalogue.filter(garde).len() && catalogue.filter(garde)[i] == e;
        catalogue.lemma_filter_pred(garde, i);
        lemma_filtre_contenu(catalogue, garde, e);
    }
    if catalogue.contains(e) && presents.contains(e.chemin@) {
        let i = choose|i: int| 0 <= i < catalogue.len() && catalogue[i] == e;
        catalogue.lemma_filter_contains(garde, i);
    }
}

/// What a filter keeps stood in the original table.
proof fn lemma_filtre_contenu(s: Seq<Jeu>, garde: spec_fn(Jeu) -> bool, e: Jeu)
    requires
        s.filter(garde).contains(e),
    ensures
        s.contains(e),
    decreases s.len(),
{
    reveal(Seq::filter);
    if s.len() > 0 {
        let f = s.drop_last().filter(garde);
        if garde(s.last()) && e == s.last() {
            assert(s[s.len() - 1] == e);
        } else {
            assert(s.filter(garde).contains(e) ==> f.contains(e)) by {
                if s.filter(garde).contains(e) {
                    let i = choose|i: int|
                        0 <= i < s.filter(garde).len() && s.filter(garde)[i] == e;
                    if garde(s.last()) {
                        assert(f.push(s.last())[i] == e);
                        assert(i < f.len());
                        assert(f[i] == e);
                    }
                }
            }
            lemma_filtre_contenu(s.drop_last(), garde, e);
            let i = choose|i: int| 0 <= i < s.drop_last().len() && s.drop_last()[i] == e;
            assert(s[i] == e);
        }
    }
}
} // verus!
