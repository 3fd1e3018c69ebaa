//! The filename parser: from a file path to a working title, an optional
//! explicit numeric identifier, and an optional language tag.
//!
//! The final path segment is the filename. The metadata block is the text
//! between the last closing bracket and the nearest opening bracket before
//! it. The working title is the filename with that block and the extension
//! stripped, trimmed. Each comma-separated token of the block is tried as an
//! unsigned integer — the last one that parses wins as the explicit id — and
//! every token that does not parse is tried as the language tag, the last
//! one winning.
use vstd::prelude::*;

use crate::objet::est_chiffre;

verus! {

/// True when `c` is an ASCII whitespace character.
pub open spec fn est_espace(c: char) -> bool {
    c == ' ' || c == '\t' || c == '\n' || c == '\r'
}

/// The position of the last occurrence of `c`, if any.
pub open spec fn dernier(s: Seq<char>, c: char) -> Option<int>
    decreases s.len(),
{
    if s.len() == 0 {
        None
    } else if s.last() == c {
        Some(s.len() - 1)
    } else {
        dernier(s.drop_last(), c)
    }
}

/// The position of the first occurrence of `c`, if any.
pub open spec fn premier(s: Seq<char>, c: char) -> Option<int>
    decreases s.len(),
{
    if s.len() == 0 {
        None
    } else if s[0] == c {
        Some(0)
    } else {
        match premier(s.drop_first(), c) {
            Some(i) => Some(i + 1),
            None => None,
        }
    }
}

/// How many whitespace characters `s` starts with.
pub open spec fn espaces_gauche(s: Seq<char>) -> int
    decreases s.len(),
{
    if s.len() == 0 || !est_espace(s[0]) {
        0
    } else {
        1 + espaces_gauche(s.drop_first())
    }
}

/// How many whitespace characters `s` ends with.
pub open spec fn espaces_droite(s: Seq<char>) -> int
    decreases s.len(),
{
    if s.len() == 0 || !est_espace(s.last()) {
        0
    } else {
        1 + espaces_droite(s.drop_last())
    }
}

/// `s` without its leading and trailing whitespace.
pub open spec fn rogne(s: Seq<char>) -> Seq<char> {
    if espaces_gauche(s) == s.len() {
        Seq::empty()
    } else {
        s.subrange(espaces_gauche(s), s.len() - espaces_droite(s))
    }
}

/// The leading-whitespace count is the first non-whitespace position.
pub proof fn lemma_espaces_gauche(s: Seq<char>)
    ensures
        0 <= espaces_gauche(s) <= s.len(),
        forall|j: int| 0 <= j < espaces_gauche(s) ==> est_espace(s[j]),
        espaces_gauche(s) < s.len() ==> !est_espace(s[espaces_gauche(s)]),
    decreases s.len(),
{
    if s.len() > 0 && est_espace(s[0]) {
        lemma_espaces_gauche(s.drop_first());
        assert forall|j: int| 0 <= j < espaces_gauche(s) implies est_espace(s[j]) by {
            if j > 0 {
                assert(est_espace(s.drop_first()[j - 1]));
            }
        }
    }
}

/// The trailing-whitespace count is decided by the last non-whitespace
/// position.
pub proof fn lemma_espaces_droite(s: Seq<char>)
    ensures
        0 <= espaces_droite(s) <= s.len(),
        forall|j: int| s.len() - espaces_droite(s) <= j < s.len() ==> est_espace(s[j]),
        espaces_droite(s) < s.len() ==> !est_espace(s[s.len() - espaces_droite(s) - 1]),
    decreases s.len(),
{
    if s.len() > 0 && est_espace(s.last()) {
        lemma_espaces_droite(s.drop_last());
        assert(forall|j: int|
            0 <= j < s.drop_last().len() ==> s.drop_last()[j] == s[j]);
    }
}

/// When something non-whitespace stands in `s`, the trim bounds are ordered.
pub proof fn lemma_rogne_bornes(s: Seq<char>)
    requires
        espaces_gauche(s) < s.len(),
    ensures
        espaces_gauche(s) + espaces_droite(s) < s.len(),
    decreases s.len(),
{
    lemma_espaces_gauche(s);
    lemma_espaces_droite(s);
    if espaces_gauche(s) + espaces_droite(s) >= s.len() {
        let g = espaces_gauche(s);
        assert(s.len() - espaces_droite(s) <= g < s.len());
        assert(est_espace(s[g]));
    }
}

/// True when `s` is one or more decimal digits.
pub open spec fn chiffres_seq(s: Seq<char>) -> bool {
    s.len() > 0 && forall|i: int| 0 <= i < s.len() ==> est_chiffre(s[i])
}

/// The digits of a numeric token: an optional leading plus sign is dropped.
pub open spec fn chiffres_de(s: Seq<char>) -> Seq<char> {
    if s.len() > 0 && s[0] == '+' {
        s.drop_first()
    } else {
        s
    }
}

/// True when `s` reads as an unsigned integer: digits, with at most one
/// leading plus sign.
pub open spec fn est_nombre(s: Seq<char>) -> bool {
    chiffres_seq(chiffres_de(s))
}

/// The value of a digit sequence read in base ten.
pub open spec fn valeur(s: Seq<char>) -> nat
    decreases s.len(),
{
    if s.len() == 0 {
        0
    } else {
        valeur(s.drop_last()) * 10 + (s.last() as u32 - 48) as nat
    }
}

/// Reading more digits never shrinks the value.
pub proof fn lemma_valeur_monotone(s: Seq<char>, i: int, j: int)
    requires
        0 <= i <= j <= s.len(),
    ensures
        valeur(s.subrange(0, i)) <= valeur(s.subrange(0, j)),
    decreases j - i,
{
    if i < j {
        lemma_valeur_monotone(s, i, j - 1);
        let a = s.subrange(0, j - 1);
        let b = s.subrange(0, j);
        assert(b.drop_last() =~= a);
        assert(valeur(b) == valeur(a) * 10 + ((b.last() as u32 - 48) as nat));
        assert(valeur(a) * 10 >= valeur(a));
    }
}

/// Parses a trimmed token as an unsigned integer: accepted exactly when it
/// reads as digits, with at most one leading plus sign, and its value fits.
pub fn analyser_entier(s: &str) -> (r: Option<u32>)
    ensures
        match r {
            Some(n) => est_nombre(s@) && valeur(chiffres_de(s@)) == n,
            None => !est_nombre(s@) || valeur(chiffres_de(s@)) > u32::MAX,
        },
{
    let longueur = s.unicode_len();
    let depart: usize = if longueur > 0 && s.get_char(0) as u32 == 43 {
        1
    } else {
        0
    };
    proof {
        if depart == 1 {
            assert(chiffres_de(s@) =~= s@.drop_first());
        } else {
            assert(chiffres_de(s@) =~= s@);
        }
    }
    let ghost chiffres = chiffres_de(s@);
    if longueur == depart {
        return None;
    }
    let mut acc: u64 = 0;
    let mut i: usize = depart;
    while i < longueur
        invariant
            depart <= i <= longueur,
            longueur == s@.len(),
            depart == 1 ==> s@[0] == '+',
            depart <= 1,
            chiffres == chiffres_de(s@),
            chiffres.len() == longueur - depart,
            forall|j: int| 0 <= j < chiffres.len() ==> chiffres[j] == s@[j + depart],
            forall|j: int| 0 <= j < i - depart ==> est_chiffre(chiffres[j]),
            acc == valeur(chiffres.subrange(0, i - depart)),
            acc <= u32::MAX,
        decreases longueur - i,
    {
        let c = s.get_char(i);
        let n = c as u32;
        if !(48 <= n && n <= 57) {
            proof {
                assert(!est_chiffre(chiffres[i - depart]));
                assert(!chiffres_seq(chiffres));
            }
            return None;
        }
        proof {
            let avant = chiffres.subrange(0, i - depart);
            let apres = chiffres.subrange(0, i - depart + 1);
            assert(apres.drop_last() =~= avant);
            assert(apres.last() == chiffres[i - depart]);
        }
        let suite: u64 = acc * 10 + (n - 48) as u64;
        if suite > 0xffff_ffff {
            proof {
                lemma_valeur_monotone(chiffres, i - depart + 1, chiffres.len() as int);
                assert(chiffres.subrange(0, chiffres.len() as int) =~= chiffres);
            }
            return None;
        }
        acc = suite;
        i += 1;
    }
    proof {
        assert(chiffres.subrange(0, chiffres.len() as int) =~= chiffres);
    }
    Some(acc as u32)
}

/// The position of the last occurrence of `c` in `s`, if any.
pub fn chercher_dernier(s: &str, c: char) -> (r: Option<usize>)
    ensures
        match r {
            Some(i) => i < s@.len() && s@[i as int] == c && dernier(s@, c) == Some(i as int),
            None => dernier(s@, c) is None,
        },
{
    let longueur = s.unicode_len();
    let mut i: usize = longueur;
    proof {
        assert(s@.subrange(0, s@.len() as int) =~= s@);
    }
    while i > 0
        invariant
            i <= longueur,
            longueur == s@.len(),
            dernier(s@, c) == dernier(s@.subrange(0, i as int), c),
        decreases i,
    {
        proof {
            let avant = s@.subrange(0, i as int);
            let apres = s@.subrange(0, i - 1);
            assert(avant.drop_last() =~= apres);
            assert(avant.last() == s@[i - 1]);
        }
        if s.get_char(i - 1) == c {
            return Some(i - 1);
        }
        i -= 1;
    }
    proof {
        assert(s@.subrange(0, 0) =~= Seq::<char>::empty());
    }
    None
}

/// The position of the last occurrence of `c` strictly before `fin`, if any.
pub fn chercher_dernier_avant(s: &str, c: char, fin: usize) -> (r: Option<usize>)
    requires
        fin <= s@.len(),
    ensures
        match r {
            Some(i) => i < fin && s@[i as int] == c && dernier(s@.subrange(0, fin as int), c)
                == Some(i as int),
            None => dernier(s@.subrange(0, fin as int), c) is None,
        },
{
    let mut i: usize = fin;
    while i > 0
        invariant
            i <= fin <= s@.len(),
            dernier(s@.subrange(0, fin as int), c) == dernier(s@.subrange(0, i as int), c),
            forall|j: int| 0 <= j < fin ==> s@.subrange(0, fin as int)[j] == s@[j],
        decreases i,
    {
        proof {
            let avant = s@.subrange(0, i as int);
            let apres = s@.subrange(0, i - 1);
            assert(avant.drop_last() =~= apres);
            assert(avant.last() == s@[i - 1]);
        }
        if s.get_char(i - 1) == c {
            return Some(i - 1);
        }
        i -= 1;
    }
    proof {
        assert(s@.subrange(0, 0) =~= Seq::<char>::empty());
    }
    None
}

/// The position of the first occurrence of `c`, if any.
pub fn chercher_premier(s: &str, c: char) -> (r: Option<usize>)
    ensures
        match r {
            Some(i) => premier(s@, c) == Some(i as int) && i < s@.len(),
            None => premier(s@, c) is None,
        },
{
    let longueur = s.unicode_len();
    let mut i: usize = 0;
    while i < longueur
        invariant
            i <= longueur,
            longueur == s@.len(),
            forall|j: int| 0 <= j < i ==> s@[j] != c,
        decreases longueur - i,
    {
        if s.get_char(i) == c {
            proof {
                lemma_premier_indice(s@, c, i as int);
            }
            return Some(i);
        }
        i += 1;
    }
    proof {
        lemma_premier_absent(s@, c);
    }
    None
}

/// A first-occurrence search is decided by the first matching position.
pub proof fn lemma_premier_indice(s: Seq<char>, c: char, i: int)
    requires
        0 <= i < s.len(),
        s[i] == c,
        forall|j: int| 0 <= j < i ==> s[j] != c,
    ensures
        premier(s, c) == Some(i),
    decreases i,
{
    if i > 0 {
        lemma_premier_indice(s.drop_first(), c, i - 1);
        assert(s.drop_first()[i - 1] == s[i]);
        assert(forall|j: int| 0 <= j < i - 1 ==> s.drop_first()[j] == s[j + 1]);
    }
}

/// When `c` stands nowhere in `s`, the search yields nothing.
pub proof fn lemma_premier_absent(s: Seq<char>, c: char)
    requires
        forall|j: int| 0 <= j < s.len() ==> s[j] != c,
    ensures
        premier(s, c) is None,
    decreases s.len(),
{
    if s.len() > 0 {
        assert(forall|j: int| 0 <= j < s.drop_first().len() ==> s.drop_first()[j] == s[j + 1]);
        lemma_premier_absent(s.drop_first(), c);
    }
}

/// True when `c` is an ASCII whitespace character.
pub fn caractere_espace(c: char) -> (r: bool)
    ensures
        r == est_espace(c),
{
    let n = c as u32;
    n == 32 || n == 9 || n == 10 || n == 13
}

/// `s` with its leading and trailing whitespace removed.
pub fn rogner(s: &str) -> (r: String)
    ensures
        r@ == rogne(s@),
{
    let longueur = s.unicode_len();
    let mut gauche: usize = 0;
    while gauche < longueur
        invariant
            gauche <= longueur,
            longueur == s@.len(),
            forall|j: int| 0 <= j < gauche ==> est_espace(s@[j]),
        ensures
            gauche <= longueur,
            forall|j: int| 0 <= j < gauche ==> est_espace(s@[j]),
            gauche < longueur ==> !est_espace(s@[gauche as int]),
        decreases longueur - gauche,
    {
        if !caractere_espace(s.get_char(gauche)) {
            break;
        }
        gauche += 1;
    }
    proof {
        lemma_espaces_gauche(s@);
        lemma_gauche_determine(s@, gauche as int);
    }
    if gauche == longueur {
        return String::new();
    }
    let mut droite: usize = longueur;
    while droite > gauche
        invariant
            gauche <= droite <= longueur,
            longueur == s@.len(),
            !est_espace(s@[gauche as int]),
            forall|j: int| droite <= j < longueur ==> est_espace(s@[j]),
        ensures
            gauche <= droite <= longueur,
            forall|j: int| droite <= j < longueur ==> est_espace(s@[j]),
            droite > gauche ==> !est_espace(s@[droite - 1]),
        decreases droite,
    {
        if !caractere_espace(s.get_char(droite - 1)) {
            break;
        }
        droite -= 1;
    }
    proof {
        lemma_espaces_droite(s@);
        lemma_rogne_bornes(s@);
        if droite == gauche {
            assert(est_espace(s@[gauche as int]));
        }
        lemma_droite_determine(s@, droite as int);
    }
    String::from_str(s.substring_char(gauche, droite))
}

/// A position bounded by whitespace on its left, holding none itself, is the
/// leading-whitespace count.
proof fn lemma_gauche_determine(s: Seq<char>, g: int)
    requires
        0 <= g <= s.len(),
        forall|j: int| 0 <= j < g ==> est_espace(s[j]),
        g < s.len() ==> !est_espace(s[g]),
    ensures
        espaces_gauche(s) == g,
{
    lemma_espaces_gauche(s);
    let e = espaces_gauche(s);
    if e < g {
        assert(est_espace(s[e]));
    }
    if g < e {
        assert(est_espace(s[g]));
    }
}

/// A position bounded by whitespace on its right, with none just before it,
/// determines the trailing-whitespace count.
proof fn lemma_droite_determine(s: Seq<char>, d: int)
    requires
        0 <= d <= s.len(),
        forall|j: int| d <= j < s.len() ==> est_espace(s[j]),
        d > 0 ==> !est_espace(s[d - 1]),
    ensures
        espaces_droite(s) == s.len() - d,
{
    lemma_espaces_droite(s);
    let e = espaces_droite(s);
    if s.len() - e < d {
        assert(est_espace(s[d - 1]));
    }
    if d < s.len() - e {
        assert(est_espace(s[s.len() - e - 1]));
    }
}


/// The comma-separated tokens of a metadata block, in order.
pub open spec fn morceaux(s: Seq<char>) -> Seq<Seq<char>>
    decreases s.len(),
{
    match premier(s, ',') {
        Some(i) => if 0 <= i < s.len() {
            seq![s.subrange(0, i)] + morceaux(s.subrange(i + 1, s.len() as int))
        } else {
            seq![s]
        },
        None => seq![s],
    }
}

/// True when a token, trimmed, reads as an unsigned integer that fits.
pub open spec fn jeton_numerique(t: Seq<char>) -> bool {
    est_nombre(rogne(t)) && valeur(chiffres_de(rogne(t))) <= u32::MAX
}

/// The explicit id carried by the tokens: the last numeric token wins.
pub open spec fn id_des(ts: Seq<Seq<char>>) -> Option<nat>
    decreases ts.len(),
{
    if ts.len() == 0 {
        None
    } else if jeton_numerique(ts.last()) {
        Some(valeur(chiffres_de(rogne(ts.last()))))
    } else {
        id_des(ts.drop_last())
    }
}

/// The language tag carried by the tokens: the last token that does not read
/// as an integer wins, trimmed.
pub open spec fn langue_des(ts: Seq<Seq<char>>) -> Option<Seq<char>>
    decreases ts.len(),
{
    if ts.len() == 0 {
        None
    } else if !jeton_numerique(ts.last()) {
        Some(rogne(ts.last()))
    } else {
        langue_des(ts.drop_last())
    }
}

/// The final path segment: what follows the last separator.
pub open spec fn nom_fichier_spec(s: Seq<char>) -> Seq<char> {
    match dernier(s, '/') {
        Some(i) => s.subrange(i + 1, s.len() as int),
        None => s,
    }
}

/// The bracket pair around the metadata block: the last closing bracket of
/// the filename and the nearest opening bracket before it.
pub open spec fn crochets_spec(nf: Seq<char>) -> Option<(int, int)> {
    match dernier(nf, ']') {
        Some(d) => match dernier(nf.subrange(0, d), '[') {
            Some(g) => Some((g, d)),
            None => None,
        },
        None => None,
    }
}

/// The filename with its metadata block, brackets included, removed.
pub open spec fn titre_brut_spec(nf: Seq<char>) -> Seq<char> {
    match crochets_spec(nf) {
        Some((g, d)) => nf.subrange(0, g) + nf.subrange(d + 1, nf.len() as int),
        None => nf,
    }
}

/// What precedes the first point: the extension is cut off.
pub open spec fn coupe_point(t: Seq<char>) -> Seq<char> {
    match premier(t, '.') {
        Some(i) => t.subrange(0, i),
        None => t,
    }
}

/// The working title of a path: the filename with the metadata block and the
/// extension stripped, trimmed.
pub open spec fn titre_spec(s: Seq<char>) -> Seq<char> {
    rogne(coupe_point(titre_brut_spec(nom_fichier_spec(s))))
}

/// The metadata block of a path, absent when no bracket pair exists.
pub open spec fn meta_spec(s: Seq<char>) -> Option<Seq<char>> {
    let nf = nom_fichier_spec(s);
    match crochets_spec(nf) {
        Some((g, d)) => Some(nf.subrange(g + 1, d)),
        None => None,
    }
}

/// The explicit id parsed from a path's metadata block.
pub open spec fn id_chemin_spec(s: Seq<char>) -> Option<nat> {
    match meta_spec(s) {
        Some(m) => id_des(morceaux(m)),
        None => None,
    }
}

/// The language tag parsed from a path's metadata block.
pub open spec fn langue_chemin_spec(s: Seq<char>) -> Option<Seq<char>> {
    match meta_spec(s) {
        Some(m) => langue_des(morceaux(m)),
        None => None,
    }
}

/// What the parser extracts from one file path.
#[derive(Debug, PartialEq)]
pub struct Analyse {
    pub nom_fichier: String,
    pub titre: String,
    pub id: Option<u32>,
    pub langue: Option<String>,
}

/// Parses a file path into its filename, its working title, its optional
/// explicit id, and its optional language tag.
pub fn analyser_chemin(chemin: &str) -> (r: Analyse)
    ensures
        r.nom_fichier@ == nom_fichier_spec(chemin@),
        r.titre@ == titre_spec(chemin@),
        (match (r.id, id_chemin_spec(chemin@)) {
            (Some(v), Some(n)) => v == n,
            (None, None) => true,
            _ => false,
        }),
        (match (r.langue, langue_chemin_spec(chemin@)) {
            (Some(l), Some(w)) => l@ == w,
            (None, None) => true,
            _ => false,
        }),
{
    let longueur = chemin.unicode_len();
    let nf: &str = match chercher_dernier(chemin, '/') {
        Some(i) => chemin.substring_char(i + 1, longueur),
        None => chemin,
    };
    let nf_longueur = nf.unicode_len();
    let crochets: Option<(usize, usize)> = match chercher_dernier(nf, ']') {
        Some(d) => match chercher_dernier_avant(nf, '[', d) {
            Some(g) => Some((g, d)),
            None => None,
        },
        None => None,
    };
    let brut: String = match crochets {
        Some((g, d)) => {
            let mut t = String::from_str(nf.substring_char(0, g));
            t.append(nf.substring_char(d + 1, nf_longueur));
            t
        },
        None => String::from_str(nf),
    };
    let coupe: &str = match chercher_premier(brut.as_str(), '.') {
        Some(i) => brut.as_str().substring_char(0, i),
        None => brut.as_str(),
    };
    let titre = rogner(coupe);
    let mut id: Option<u32> = None;
    let mut langue: Option<String> = None;
    match crochets {
        Some((g, d)) => {
            let meta: &str = nf.substring_char(g + 1, d);
            let ghost tous = morceaux(meta@);
            let ghost faits: Seq<Seq<char>> = Seq::empty();
            let mut reste: &str = meta;
            let mut fini: bool = false;
            proof {
                assert(faits + morceaux(reste@) =~= tous);
            }
            while !fini
                invariant
                    tous == morceaux(meta@),
                    !fini ==> faits + morceaux(reste@) == tous,
                    fini ==> faits == tous,
                    (match (id, id_des(faits)) {
                        (Some(v), Some(n)) => v == n,
                        (None, None) => true,
                        _ => false,
                    }),
                    (match (langue, langue_des(faits)) {
                        (Some(l), Some(w)) => l@ == w,
                        (None, None) => true,
                        _ => false,
                    }),
                decreases (if fini { 0int } else { reste@.len() as int + 1 }),
            {
                let morceau: &str;
                let reste_longueur = reste.unicode_len();
                match chercher_premier(reste, ',') {
                    Some(i) => {
                        morceau = reste.substring_char(0, i);
                        let suite = reste.substring_char(i + 1, reste_longueur);
                        proof {
                            assert(morceaux(reste@) == seq![reste@.subrange(0, i as int)]
                                + morceaux(suite@));
                            assert(faits.push(morceau@) + morceaux(suite@) =~= faits
                                + morceaux(reste@));
                        }
                        reste = suite;
                    },
                    None => {
                        morceau = reste;
                        proof {
                            assert(morceaux(reste@) =~= seq![reste@]);
                            assert(faits.push(morceau@) =~= faits + morceaux(reste@));
                        }
                        fini = true;
                    },
                }
                let rogne_morceau = rogner(morceau);
                proof {
                    assert(faits.push(morceau@).drop_last() =~= faits);
                    assert(faits.push(morceau@).last() == morceau@);
                }
                match analyser_entier(rogne_morceau.as_str()) {
                    Some(v) => {
                        id = Some(v);
                    },
                    None => {
                        langue = Some(rogne_morceau);
                    },
                }
                proof {
                    faits = faits.push(morceau@);
                }
            }
        },
        None => {},
    }
    Analyse { nom_fichier: String::from_str(nf), titre, id, langue }
}
} // verus!
