//! The cover cache addressable by game id: the filename a cover is cached
//! under, and the rewrite of a thumbnail link into its full-size
//! counterpart. Fetching and writing the image is input and output around
//! the library.
use vstd::prelude::*;

use crate::sql::chiffres_nat;
use crate::sql::texte_u32;

verus! {

/// The filename a game's cover is cached under: its id and the image
/// extension.
pub fn nom_fichier_couverture(id: u32) -> (r: String)
    ensures
        r@ == chiffres_nat(id as nat) + ".jpg"@,
{
    let mut nom = texte_u32(id);
    nom.append(".jpg");
    nom
}

/// The position of the first occurrence of `motif` in `s`, if any.
pub open spec fn premiere_occurrence(s: Seq<char>, motif: Seq<char>) -> Option<int>
    decreases s.len(),
{
    if motif.len() == 0 || s.len() < motif.len() {
        None
    } else if s.subrange(0, motif.len() as int) == motif {
        Some(0)
    } else {
        match premiere_occurrence(s.drop_first(), motif) {
            Some(i) => Some(i + 1),
            None => None,
        }
    }
}

/// A pattern search is decided by the first matching position.
proof fn lemma_occurrence_indice(s: Seq<char>, motif: Seq<char>, i: int)
    requires
        motif.len() > 0,
        0 <= i,
        i + motif.len() <= s.len(),
        s.subrange(i, i + motif.len()) == motif,
        forall|j: int| 0 <= j < i ==> #[trigger] s.subrange(j, j + motif.len()) != motif,
    ensures
        premiere_occurrence(s, motif) == Some(i),
    decreases i,
{
    if i == 0 {
        assert(s.subrange(0, motif.len() as int) == motif);
    } else {
        assert(s.subrange(0, 0int + motif.len()) != motif);
        assert(s.subrange(0, motif.len() as int) == s.subrange(0, 0int + motif.len()));
        assert(s.len() >= motif.len());
        let d = s.drop_first();
        assert forall|j: int| 0 <= j < i - 1 implies #[trigger] d.subrange(j, j + motif.len())
            != motif by {
            assert(d.subrange(j, j + motif.len()) =~= s.subrange(j + 1, j + 1 + motif.len()));
        }
        assert(d.subrange(i - 1, i - 1 + motif.len()) =~= s.subrange(i, i + motif.len()));
        lemma_occurrence_indice(d, motif, i - 1);
    }
}

/// When the pattern matches nowhere, the search yields nothing.
proof fn lemma_occurrence_absente(s: Seq<char>, motif: Seq<char>)
    requires
        motif.len() > 0,
        forall|j: int|
            0 <= j <= s.len() - motif.len() ==> #[trigger] s.subrange(j, j + motif.len())
                != motif,
    ensures
        premiere_occurrence(s, motif) is None,
    decreases s.len(),
{
    if s.len() >= motif.len() {
        assert(s.subrange(0, 0int + motif.len()) != motif);
        assert(s.subrange(0, motif.len() as int) == s.subrange(0, 0int + motif.len()));
        let d = s.drop_first();
        assert forall|j: int| 0 <= j <= d.len() - motif.len() implies #[trigger] d.subrange(
            j,
            j + motif.len(),
        ) != motif by {
            assert(d.subrange(j, j + motif.len()) =~= s.subrange(j + 1, j + 1 + motif.len()));
        }
        lemma_occurrence_absente(d, motif);
    }
}

/// The link with its first thumbnail marker rewritten to the full-size
/// cover size; a link without the marker stands unchanged.
pub open spec fn lien_agrandi(s: Seq<char>) -> Seq<char> {
    match premiere_occurrence(s, "t_thumb"@) {
        Some(i) => s.subrange(0, i) + "t_cover_big"@ + s.subrange(
            i + "t_thumb"@.len(),
            s.len() as int,
        ),
        None => s,
    }
}

/// Rewrites a thumbnail link into its full-size counterpart.
pub fn lien_grande_couverture(lien: &str) -> (r: String)
    ensures
        r@ == lien_agrandi(lien@),
{
    proof {
        reveal_strlit("t_thumb");
    }
    let motif: &str = "t_thumb";
    let longueur = lien.unicode_len();
    let motif_longueur = motif.unicode_len();
    if longueur < motif_longueur {
        proof {
            assert(premiere_occurrence(lien@, "t_thumb"@) is None);
        }
        return String::from_str(lien);
    }
    let mut i: usize = 0;
    while i <= longueur - motif_longueur
        invariant
            motif_longueur == "t_thumb"@.len(),
            0 < motif_longueur <= longueur,
            motif@ == "t_thumb"@,
            longueur == lien@.len(),
            i <= longueur,
            forall|j: int|
                0 <= j < i ==> #[trigger] lien@.subrange(j, j + "t_thumb"@.len())
                    != "t_thumb"@,
        decreases longueur - i,
    {
        let mut k: usize = 0;
        let mut egal: bool = true;
        while k < motif_longueur
            invariant
                k <= motif_longueur,
                motif_longueur == "t_thumb"@.len(),
                motif@ == "t_thumb"@,
                longueur == lien@.len(),
                i + motif_longueur <= longueur,
                egal == forall|l: int| 0 <= l < k ==> lien@[i + l] == "t_thumb"@[l],
            decreases motif_longueur - k,
        {
            if !(lien.get_char(i + k) == motif.get_char(k)) {
                proof {
                    assert(!(forall|l: int|
                        0 <= l < k + 1 ==> lien@[i + l] == "t_thumb"@[l])) by {
                        assert(lien@[i + k as int] != "t_thumb"@[k as int]);
                    }
                }
                egal = false;
            }
            k += 1;
        }
        if egal {
            proof {
                assert(lien@.subrange(i as int, i + "t_thumb"@.len()) =~= "t_thumb"@);
                assert("t_thumb"@.len() > 0);
                lemma_occurrence_indice(lien@, "t_thumb"@, i as int);
            }
            let mut sortie = String::from_str(lien.substring_char(0, i));
            sortie.append("t_cover_big");
            sortie.append(lien.substring_char(i + motif_longueur, longueur));
            proof {
                assert(sortie@ =~= lien_agrandi(lien@));
            }
            return sortie;
        }
        proof {
            assert(lien@.subrange(i as int, i + "t_thumb"@.len()) != "t_thumb"@) by {
                let l = choose|l: int| 0 <= l < "t_thumb"@.len() && lien@[i + l] != "t_thumb"@[l];
                assert(lien@.subrange(i as int, i + "t_thumb"@.len())[l] != "t_thumb"@[l]);
            }
        }
        i += 1;
    }
    proof {
        assert forall|j: int|
            0 <= j <= lien@.len() - "t_thumb"@.len() implies #[trigger] lien@.subrange(
            j,
            j + "t_thumb"@.len(),
        ) != "t_thumb"@ by {}
        lemma_occurrence_absente(lien@, "t_thumb"@);
    }
    String::from_str(lien)
}

} // verus!
