//! The persistence protocol: a per-entity-type contract (exists / load /
//! load-translated / save / delete / translate) over the relational store
//! model, and the recursive save engine for the composite game entity.
use vstd::prelude::*;

use crate::objet::{
    copier_ids, copier_opt_note, copier_opt_texte, CaptureEcranIGDB, CategorieJeuIGDB,
    CategoriePlateformeIGDB, CollectionIGDB, CouvertureIGDB, EntrepriseIGDB, FranchiseIGDB,
    GenreIGDB, IllustrationIGDB, Jeu, JeuIGDB, LogoEntrepriseIGDB, LogoPlateformeIGDB, MotCleIGDB,
    Note, PlateformeIGDB, ThemeIGDB, VideoIGDB,
};

verus! {

/// The contract shared by every entity persisted in a table keyed by a
/// numeric id.
pub trait CompatibleSQL: Sized {
    /// The key under which a row of this entity is identified.
    spec fn cle(&self) -> u32;

    /// The read-time translation overlay: each translatable field replaced by
    /// its translated counterpart when present, left unchanged otherwise.
    spec fn traduite_spec(e: Self) -> Self;

    /// How a translated entity writes its translated-field subset into an
    /// existing row: only the translated columns change, never the key.
    spec fn traduction_spec(ligne: Self, source: Self) -> Self;

    fn id(&self) -> (r: u32)
        ensures
            r == self.cle(),
    ;

    fn table() -> (r: &'static str);

    /// An explicit copy whose result is known to equal the original.
    fn copier(&self) -> (r: Self)
        ensures
            r == *self,
    ;

    /// Applies the read-time overlay.
    fn traduite(self) -> (r: Self)
        ensures
            r == Self::traduite_spec(self),
    ;

    /// Writes the translated-field subset of `source` into this row.
    fn avec_traduction(&self, source: &Self) -> (r: Self)
        ensures
            r == Self::traduction_spec(*self, *source),
            r.cle() == self.cle(),
    ;
}

/// True when some row of `s` carries the key `id`.
pub open spec fn contient_cle<T: CompatibleSQL>(s: Seq<T>, id: u32) -> bool {
    exists|i: int| 0 <= i < s.len() && s[i].cle() == id
}

/// True when no two rows of `s` share a key.
pub open spec fn cles_uniques<T: CompatibleSQL>(s: Seq<T>) -> bool {
    forall|i: int, j: int| 0 <= i < j < s.len() ==> s[i].cle() != s[j].cle()
}

/// The first row of `s` keyed by `id`, if any.
pub open spec fn trouve<T: CompatibleSQL>(s: Seq<T>, id: u32) -> Option<T>
    decreases s.len(),
{
    if s.len() == 0 {
        None
    } else if s[0].cle() == id {
        Some(s[0])
    } else {
        trouve(s.drop_first(), id)
    }
}

/// The table after an idempotent save: unchanged when the key is present,
/// extended by the new row otherwise — never an overwrite.
pub open spec fn enregistre<T: CompatibleSQL>(s: Seq<T>, e: T) -> Seq<T> {
    if contient_cle(s, e.cle()) {
        s
    } else {
        s.push(e)
    }
}

/// Keeps the rows whose key differs from `id`.
pub open spec fn garde_autre_cle<T: CompatibleSQL>(id: u32) -> spec_fn(T) -> bool {
    |x: T| x.cle() != id
}

/// The table after every row keyed by `id` is removed.
pub open spec fn supprime<T: CompatibleSQL>(s: Seq<T>, id: u32) -> Seq<T> {
    s.filter(garde_autre_cle(id))
}

/// A find returns a row exactly when the table contains the key.
pub proof fn lemma_trouve_contient<T: CompatibleSQL>(s: Seq<T>, id: u32)
    ensures
        trouve(s, id) is Some <==> contient_cle(s, id),
        match trouve(s, id) {
            Some(e) => e.cle() == id && s.contains(e),
            None => true,
        },
    decreases s.len(),
{
    if s.len() > 0 && s[0].cle() != id {
        lemma_trouve_contient(s.drop_first(), id);
        assert forall|i: int| 0 <= i < s.len() && s[i].cle() == id implies contient_cle(
            s.drop_first(),
            id,
        ) by {
            assert(s.drop_first()[i - 1] == s[i]);
        }
        match trouve(s.drop_first(), id) {
            Some(e) => {
                let i = choose|i: int|
                    0 <= i < s.drop_first().len() && s.drop_first()[i] == e;
                assert(s[i + 1] == e);
            },
            None => {},
        }
    }
}

/// A find is decided by the first matching position.
pub proof fn lemma_trouve_indice<T: CompatibleSQL>(s: Seq<T>, id: u32, i: int)
    requires
        0 <= i < s.len(),
        s[i].cle() == id,
        forall|j: int| 0 <= j < i ==> s[j].cle() != id,
    ensures
        trouve(s, id) == Some(s[i]),
    decreases i,
{
    if i > 0 {
        lemma_trouve_indice(s.drop_first(), id, i - 1);
        assert(s.drop_first()[i - 1] == s[i]);
    }
}

/// When no row matches, a find yields nothing.
pub proof fn lemma_trouve_absent<T: CompatibleSQL>(s: Seq<T>, id: u32)
    requires
        forall|j: int| 0 <= j < s.len() ==> s[j].cle() != id,
    ensures
        trouve(s, id) is None,
    decreases s.len(),
{
    if s.len() > 0 {
        lemma_trouve_absent(s.drop_first(), id);
    }
}

/// Whether a row identifiable by `id` is present in `table`.
pub fn existe_dans<T: CompatibleSQL>(table: &Vec<T>, id: u32) -> (r: bool)
    ensures
        r == contient_cle(table@, id),
{
    let mut i: usize = 0;
    while i < table.len()
        invariant
            i <= table@.len(),
            forall|j: int| 0 <= j < i ==> table@[j].cle() != id,
        decreases table@.len() - i,
    {
        if table[i].id() == id {
            return true;
        }
        i += 1;
    }
    false
}

/// The position of the first row keyed by `id`, if any.
pub fn indice_de<T: CompatibleSQL>(table: &Vec<T>, id: u32) -> (r: Option<usize>)
    ensures
        match r {
            Some(i) => i < table@.len() && table@[i as int].cle() == id && forall|j: int|
                0 <= j < i ==> table@[j].cle() != id,
            None => !contient_cle(table@, id),
        },
{
    let mut i: usize = 0;
    while i < table.len()
        invariant
            i <= table@.len(),
            forall|j: int| 0 <= j < i ==> table@[j].cle() != id,
        decreases table@.len() - i,
    {
        if table[i].id() == id {
            return Some(i);
        }
        i += 1;
    }
    None
}

/// Base-variant read: the first row of `table` keyed by `id`.
pub fn charger_depuis<T: CompatibleSQL>(table: &Vec<T>, id: u32) -> (r: Option<T>)
    ensures
        r == trouve(table@, id),
{
    match indice_de(table, id) {
        Some(i) => {
            proof {
                lemma_trouve_indice(table@, id, i as int);
            }
            Some(table[i].copier())
        },
        None => {
            proof {
                lemma_trouve_contient(table@, id);
            }
            None
        },
    }
}

/// Idempotent save: inserts the row only when its key is absent; an existing
/// row is never overwritten.
pub fn inserer_si_absent<T: CompatibleSQL>(table: &mut Vec<T>, e: T)
    ensures
        final(table)@ == enregistre(old(table)@, e),
        cles_uniques(old(table)@) ==> cles_uniques(final(table)@),
{
    let present = existe_dans(table, e.id());
    if !present {
        table.push(e);
    }
}

/// Best-effort removal of every row keyed by `id`.
pub fn supprimer_de<T: CompatibleSQL>(table: &mut Vec<T>, id: u32)
    ensures
        final(table)@ == supprime(old(table)@, id),
        cles_uniques(old(table)@) ==> cles_uniques(final(table)@),
{
    let ghost pred = garde_autre_cle::<T>(id);
    let mut reste: Vec<T> = Vec::new();
    let mut i: usize = 0;
    proof {
        reveal(Seq::filter);
        assert(old(table)@.subrange(0, 0).filter(pred) =~= Seq::<T>::empty());
    }
    while i < table.len()
        invariant
            pred == garde_autre_cle::<T>(id),
            i <= table@.len(),
            table@ == old(table)@,
            reste@ == table@.subrange(0, i as int).filter(pred),
        decreases table@.len() - i,
    {
        proof {
            reveal(Seq::filter);
            let avant = table@.subrange(0, i as int);
            let apres = table@.subrange(0, i as int + 1);
            assert(apres.len() == i + 1);
            assert(apres.drop_last() =~= avant);
            assert(apres.last() == table@[i as int]);
            if pred(table@[i as int]) {
                assert(apres.filter(pred) == avant.filter(pred).push(table@[i as int]));
            } else {
                assert(apres.filter(pred) == avant.filter(pred));
            }
        }
        if table[i].id() != id {
            reste.push(table[i].copier());
        }
        i += 1;
    }
    proof {
        assert(table@.subrange(0, table@.len() as int) =~= table@);
    }
    *table = reste;
    proof {
        if cles_uniques(old(table)@) {
            lemma_filtre_cles_uniques(old(table)@, pred);
        }
    }
}

/// Filtering a table keeps its keys unique, and every kept row stood in the
/// original table.
pub proof fn lemma_filtre_cles_uniques<T: CompatibleSQL>(s: Seq<T>, pred: spec_fn(T) -> bool)
    requires
        cles_uniques(s),
    ensures
        cles_uniques(s.filter(pred)),
    decreases s.len(),
{
    reveal(Seq::filter);
    if s.len() > 0 {
        assert(forall|i: int, j: int|
            0 <= i < j < s.drop_last().len() ==> s.drop_last()[i].cle() != s.drop_last()[j].cle());
        lemma_filtre_cles_uniques(s.drop_last(), pred);
        let f = s.drop_last().filter(pred);
        if pred(s.last()) {
            assert forall|i: int, j: int|
                0 <= i < j < f.push(s.last()).len() implies f.push(s.last())[i].cle() != f.push(
                s.last(),
            )[j].cle() by {
                if j == f.len() {
                    s.drop_last().lemma_filter_contains_rev(pred, f[i]);
                    let k = choose|k: int|
                        0 <= k < s.drop_last().len() && s.drop_last()[k] == f[i];
                    assert(s[k] == f[i]);
                    assert(s[k].cle() != s.last().cle());
                }
            }
        }
    }
}


/// The translated read of the row keyed by `id`: the base read with the
/// overlay applied.
pub open spec fn charge_traduit<T: CompatibleSQL>(s: Seq<T>, id: u32) -> Option<T> {
    match trouve(s, id) {
        Some(e) => Some(T::traduite_spec(e)),
        None => None,
    }
}

/// Translated read: the base read with each translatable field overlaid.
pub fn charger_traduit_depuis<T: CompatibleSQL>(table: &Vec<T>, id: u32) -> (r: Option<T>)
    ensures
        r == charge_traduit(table@, id),
{
    match charger_depuis(table, id) {
        Some(e) => Some(e.traduite()),
        None => None,
    }
}

/// Every row keyed as `e` rewritten to `e`; the other rows untouched.
pub open spec fn remplace<T: CompatibleSQL>(s: Seq<T>, e: T) -> Seq<T> {
    Seq::new(s.len(), |i: int| if s[i].cle() == e.cle() { e } else { s[i] })
}

/// The table after an upsert of `e`: rewritten in place when the key is
/// present, extended otherwise.
pub open spec fn upsert<T: CompatibleSQL>(s: Seq<T>, e: T) -> Seq<T> {
    if contient_cle(s, e.cle()) {
        remplace(s, e)
    } else {
        s.push(e)
    }
}

/// Upsert: rewrites the rows carrying the key of `e`, or appends `e` when the
/// key is absent.
pub fn inserer_ou_remplacer<T: CompatibleSQL>(table: &mut Vec<T>, e: T)
    ensures
        final(table)@ == upsert(old(table)@, e),
        cles_uniques(old(table)@) ==> cles_uniques(final(table)@),
{
    let mut present: bool = false;
    let mut i: usize = 0;
    while i < table.len()
        invariant
            i <= table@.len(),
            table@.len() == old(table)@.len(),
            forall|j: int| 0 <= j < i ==> table@[j] == remplace(old(table)@, e)[j],
            forall|j: int| i <= j < table@.len() ==> table@[j] == old(table)@[j],
            present == contient_cle(old(table)@.subrange(0, i as int), e.cle()),
        decreases table@.len() - i,
    {
        proof {
            let avant = old(table)@.subrange(0, i as int);
            let apres = old(table)@.subrange(0, i as int + 1);
            assert(contient_cle(apres, e.cle()) == (contient_cle(avant, e.cle())
                || old(table)@[i as int].cle() == e.cle())) by {
                if contient_cle(avant, e.cle()) {
                    let k = choose|k: int| 0 <= k < avant.len() && avant[k].cle() == e.cle();
                    assert(apres[k].cle() == e.cle());
                }
                if contient_cle(apres, e.cle()) && old(table)@[i as int].cle() != e.cle() {
                    let k = choose|k: int| 0 <= k < apres.len() && apres[k].cle() == e.cle();
                    assert(avant[k] == apres[k]);
                }
                if old(table)@[i as int].cle() == e.cle() {
                    assert(apres[i as int].cle() == e.cle());
                }
            }
        }
        if table[i].id() == e.id() {
            table.set(i, e.copier());
            present = true;
        }
        i += 1;
    }
    proof {
        assert(old(table)@.subrange(0, old(table)@.len() as int) =~= old(table)@);
    }
    if !present {
        table.push(e);
        proof {
            assert(final(table)@ =~= old(table)@.push(e));
        }
    } else {
        proof {
            assert(final(table)@ =~= remplace(old(table)@, e));
        }
    }
}

/// The rows of `s` rewritten by the translated-field subset of `e` wherever
/// the key matches.
pub open spec fn traduction_table<T: CompatibleSQL>(s: Seq<T>, e: T) -> Seq<T> {
    Seq::new(s.len(), |i: int| if s[i].cle() == e.cle() {
        T::traduction_spec(s[i], e)
    } else {
        s[i]
    })
}

/// Writes only the translated-field subset of the rows keyed as `e`;
/// an absent key leaves the table unchanged.
pub fn appliquer_traduction<T: CompatibleSQL>(table: &mut Vec<T>, e: &T)
    ensures
        final(table)@ == traduction_table(old(table)@, *e),
        cles_uniques(old(table)@) ==> cles_uniques(final(table)@),
{
    let mut i: usize = 0;
    while i < table.len()
        invariant
            i <= table@.len(),
            table@.len() == old(table)@.len(),
            forall|j: int| 0 <= j < i ==> table@[j] == traduction_table(old(table)@, *e)[j],
            forall|j: int| 0 <= j < i ==> table@[j].cle() == old(table)@[j].cle(),
            forall|j: int| i <= j < table@.len() ==> table@[j] == old(table)@[j],
        decreases table@.len() - i,
    {
        if table[i].id() == e.id() {
            let ligne = table[i].avec_traduction(e);
            table.set(i, ligne);
        }
        i += 1;
    }
    proof {
        assert(final(table)@ =~= traduction_table(old(table)@, *e));
    }
}

/// The table after each entity of `es` is saved in turn, idempotently.
pub open spec fn enregistre_tous<T: CompatibleSQL>(s: Seq<T>, es: Seq<T>) -> Seq<T>
    decreases es.len(),
{
    if es.len() == 0 {
        s
    } else {
        enregistre_tous(enregistre(s, es[0]), es.drop_first())
    }
}

/// Saving one more entity after a batch equals extending the batch.
pub proof fn lemma_enregistre_tous_pas<T: CompatibleSQL>(s: Seq<T>, es: Seq<T>, e: T)
    ensures
        enregistre_tous(s, es.push(e)) == enregistre(enregistre_tous(s, es), e),
    decreases es.len(),
{
    if es.len() == 0 {
        assert(es.push(e)[0] == e);
        assert(es.push(e).drop_first() =~= Seq::<T>::empty());
        assert(enregistre_tous(s, es.push(e)) == enregistre_tous(enregistre(s, e),
            Seq::<T>::empty()));
        assert(enregistre_tous(s, es) == s);
    } else {
        assert(es.push(e)[0] == es[0]);
        assert(es.push(e).drop_first() =~= es.drop_first().push(e));
        lemma_enregistre_tous_pas(enregistre(s, es[0]), es.drop_first(), e);
        assert(enregistre_tous(s, es.push(e)) == enregistre_tous(enregistre(s, es[0]),
            es.drop_first().push(e)));
        assert(enregistre_tous(s, es) == enregistre_tous(enregistre(s, es[0]), es.drop_first()));
    }
}

/// Saves every entity of `es` in order, idempotently.
pub fn enregistrer_plusieurs<T: CompatibleSQL>(table: &mut Vec<T>, es: &Vec<T>)
    ensures
        final(table)@ == enregistre_tous(old(table)@, es@),
        cles_uniques(old(table)@) ==> cles_uniques(final(table)@),
{
    let mut i: usize = 0;
    proof {
        assert(es@.subrange(0, 0) =~= Seq::<T>::empty());
    }
    while i < es.len()
        invariant
            i <= es@.len(),
            table@ == enregistre_tous(old(table)@, es@.subrange(0, i as int)),
            cles_uniques(old(table)@) ==> cles_uniques(table@),
        decreases es@.len() - i,
    {
        proof {
            let avant = es@.subrange(0, i as int);
            let apres = es@.subrange(0, i as int + 1);
            assert(apres =~= avant.push(es@[i as int]));
            lemma_enregistre_tous_pas(old(table)@, avant, es@[i as int]);
        }
        inserer_si_absent(table, es[i].copier());
        i += 1;
    }
    proof {
        assert(es@.subrange(0, es@.len() as int) =~= es@);
    }
}


/// The translated-overlay rule for an optional field: the translated value
/// when present, the base value — absent or not — otherwise.
pub open spec fn determiner_opt_spec(
    val_traduit: Option<String>,
    val: Option<String>,
) -> Option<String> {
    match val_traduit {
        Some(valeur) => Some(valeur),
        None => val,
    }
}

/// The translated-overlay rule applied to one optional field.
pub fn determiner_opt(val_traduit: Option<String>, val: Option<String>) -> (r: Option<String>)
    ensures
        r == determiner_opt_spec(val_traduit, val),
{
    match val_traduit {
        Some(valeur) => Some(valeur),
        None => val,
    }
}

/// Chooses the translated value of a field when one is present, and falls
/// back to the base value otherwise.
pub open spec fn determiner_spec(val_traduit: Option<String>, val: String) -> String {
    match val_traduit {
        Some(valeur) => valeur,
        None => val,
    }
}

/// The translated-overlay rule applied to one field.
pub fn determiner(val_traduit: Option<String>, val: String) -> (r: String)
    ensures
        r == determiner_spec(val_traduit, val),
{
    match val_traduit {
        Some(valeur) => valeur,
        None => val,
    }
}

/// One row of a many-to-many join table between a game and a related entity.
#[derive(Debug, Clone, Copy, PartialEq, Eq, Structural)]
pub struct Arete {
    pub jeu: u32,
    pub lie: u32,
}

/// One row of the join table between games and companies, with the role the
/// company played for that game.
#[derive(Debug, Clone, Copy, PartialEq, Eq, Structural)]
pub struct AreteEntreprise {
    pub jeu: u32,
    pub entreprise: u32,
    pub developed: bool,
    pub published: bool,
}

/// The base-table row of the composite game entity: its scalar columns and
/// the keys of its single-valued relations.
#[derive(Debug, PartialEq)]
pub struct LigneJeu {
    pub id: u32,
    pub name: String,
    pub slug: Option<String>,
    pub name_traduit: Option<String>,
    pub storyline: Option<String>,
    pub storyline_traduit: Option<String>,
    pub summary: Option<String>,
    pub summary_traduit: Option<String>,
    pub first_release_date: Option<i64>,
    pub collection: Option<u32>,
    pub franchise: Option<u32>,
    pub category: Option<u8>,
    pub rating: Option<Note>,
    pub rating_count: Option<u32>,
    pub cover: Option<u32>,
    pub updated_at: Option<i64>,
}

/// The base-table row of a platform: scalar columns and the logo key.
#[derive(Debug, PartialEq)]
pub struct LignePlateforme {
    pub id: u32,
    pub name: String,
    pub slug: Option<String>,
    pub name_traduit: Option<String>,
    pub summary: Option<String>,
    pub summary_traduit: Option<String>,
    pub category: Option<u8>,
    pub platform_logo: Option<u32>,
    pub updated_at: Option<i64>,
}

/// The base-table row of a company: scalar columns and the logo key; its
/// developed and published lists live in the join table.
#[derive(Debug, PartialEq)]
pub struct LigneEntreprise {
    pub id: u32,
    pub name: String,
    pub slug: Option<String>,
    pub name_traduit: Option<String>,
    pub description: Option<String>,
    pub description_traduit: Option<String>,
    pub parent: Option<u32>,
    pub logo: Option<u32>,
    pub start_date: Option<i64>,
    pub updated_at: Option<i64>,
}


impl CompatibleSQL for CollectionIGDB {
    open spec fn cle(&self) -> u32 {
        self.id
    }

    open spec fn traduite_spec(e: Self) -> Self {
        CollectionIGDB {
            name: determiner_spec(e.name_traduit, e.name),
            name_traduit: None,
            ..e
        }
    }

    open spec fn traduction_spec(ligne: Self, source: Self) -> Self {
        CollectionIGDB { name_traduit: Some(source.name), ..ligne }
    }

    fn id(&self) -> u32 {
        self.id
    }

    fn table() -> &'static str {
        "collections"
    }

    fn copier(&self) -> Self {
        CollectionIGDB {
            id: self.id,
            name: self.name.clone(),
            slug: copier_opt_texte(&self.slug),
            name_traduit: copier_opt_texte(&self.name_traduit),
            updated_at: self.updated_at,
        }
    }

    fn traduite(self) -> Self {
        CollectionIGDB {
            id: self.id,
            name: determiner(self.name_traduit, self.name),
            name_traduit: None,
            slug: self.slug,
            updated_at: self.updated_at,
        }
    }

    fn avec_traduction(&self, source: &Self) -> Self {
        CollectionIGDB {
            id: self.id,
            name: self.name.clone(),
            name_traduit: Some(source.name.clone()),
            slug: copier_opt_texte(&self.slug),
            updated_at: self.updated_at,
        }
    }
}


impl CompatibleSQL for FranchiseIGDB {
    open spec fn cle(&self) -> u32 {
        self.id
    }

    open spec fn traduite_spec(e: Self) -> Self {
        FranchiseIGDB {
            name: determiner_spec(e.name_traduit, e.name),
            name_traduit: None,
            ..e
        }
    }

    open spec fn traduction_spec(ligne: Self, source: Self) -> Self {
        FranchiseIGDB { name_traduit: Some(source.name), ..ligne }
    }

    fn id(&self) -> u32 {
        self.id
    }

    fn table() -> &'static str {
        "franchises"
    }

    fn copier(&self) -> Self {
        FranchiseIGDB {
            id: self.id,
            name: self.name.clone(),
            slug: copier_opt_texte(&self.slug),
            name_traduit: copier_opt_texte(&self.name_traduit),
            updated_at: self.updated_at,
        }
    }

    fn traduite(self) -> Self {
        FranchiseIGDB {
            id: self.id,
            name: determiner(self.name_traduit, self.name),
            name_traduit: None,
            slug: self.slug,
            updated_at: self.updated_at,
        }
    }

    fn avec_traduction(&self, source: &Self) -> Self {
        FranchiseIGDB {
            id: self.id,
            name: self.name.clone(),
            name_traduit: Some(source.name.clone()),
            slug: copier_opt_texte(&self.slug),
            updated_at: self.updated_at,
        }
    }
}


impl CompatibleSQL for GenreIGDB {
    open spec fn cle(&self) -> u32 {
        self.id
    }

    open spec fn traduite_spec(e: Self) -> Self {
        GenreIGDB {
            name: determiner_spec(e.name_traduit, e.name),
            name_traduit: None,
            ..e
        }
    }

    open spec fn traduction_spec(ligne: Self, source: Self) -> Self {
        GenreIGDB { name_traduit: Some(source.name), ..ligne }
    }

    fn id(&self) -> u32 {
        self.id
    }

    fn table() -> &'static str {
        "genres"
    }

    fn copier(&self) -> Self {
        GenreIGDB {
            id: self.id,
            name: self.name.clone(),
            slug: copier_opt_texte(&self.slug),
            name_traduit: copier_opt_texte(&self.name_traduit),
            updated_at: self.updated_at,
        }
    }

    fn traduite(self) -> Self {
        GenreIGDB {
            id: self.id,
            name: determiner(self.name_traduit, self.name),
            name_traduit: None,
            slug: self.slug,
            updated_at: self.updated_at,
        }
    }

    fn avec_traduction(&self, source: &Self) -> Self {
        GenreIGDB {
            id: self.id,
            name: self.name.clone(),
            name_traduit: Some(source.name.clone()),
            slug: copier_opt_texte(&self.slug),
            updated_at: self.updated_at,
        }
    }
}


impl CompatibleSQL for ThemeIGDB {
    open spec fn cle(&self) -> u32 {
        self.id
    }

    open spec fn traduite_spec(e: Self) -> Self {
        ThemeIGDB {
            name: determiner_spec(e.name_traduit, e.name),
            name_traduit: None,
            ..e
        }
    }

    open spec fn traduction_spec(ligne: Self, source: Self) -> Self {
        ThemeIGDB { name_traduit: Some(source.name), ..ligne }
    }

    fn id(&self) -> u32 {
        self.id
    }

    fn table() -> &'static str {
        "themes"
    }

    fn copier(&self) -> Self {
        ThemeIGDB {
            id: self.id,
            name: self.name.clone(),
            slug: copier_opt_texte(&self.slug),
            name_traduit: copier_opt_texte(&self.name_traduit),
            updated_at: self.updated_at,
        }
    }

    fn traduite(self) -> Self {
        ThemeIGDB {
            id: self.id,
            name: determiner(self.name_traduit, self.name),
            name_traduit: None,
            slug: self.slug,
            updated_at: self.updated_at,
        }
    }

    fn avec_traduction(&self, source: &Self) -> Self {
        ThemeIGDB {
            id: self.id,
            name: self.name.clone(),
            name_traduit: Some(source.name.clone()),
            slug: copier_opt_texte(&self.slug),
            updated_at: self.updated_at,
        }
    }
}


impl CompatibleSQL for MotCleIGDB {
    open spec fn cle(&self) -> u32 {
        self.id
    }

    open spec fn traduite_spec(e: Self) -> Self {
        MotCleIGDB {
            name: determiner_spec(e.name_traduit, e.name),
            name_traduit: None,
            ..e
        }
    }

    open spec fn traduction_spec(ligne: Self, source: Self) -> Self {
        MotCleIGDB { name_traduit: Some(source.name), ..ligne }
    }

    fn id(&self) -> u32 {
        self.id
    }

    fn table() -> &'static str {
        "mots_cles"
    }

    fn copier(&self) -> Self {
        MotCleIGDB {
            id: self.id,
            name: self.name.clone(),
            slug: copier_opt_texte(&self.slug),
            name_traduit: copier_opt_texte(&self.name_traduit),
            updated_at: self.updated_at,
        }
    }

    fn traduite(self) -> Self {
        MotCleIGDB {
            id: self.id,
            name: determiner(self.name_traduit, self.name),
            name_traduit: None,
            slug: self.slug,
            updated_at: self.updated_at,
        }
    }

    fn avec_traduction(&self, source: &Self) -> Self {
        MotCleIGDB {
            id: self.id,
            name: self.name.clone(),
            name_traduit: Some(source.name.clone()),
            slug: copier_opt_texte(&self.slug),
            updated_at: self.updated_at,
        }
    }
}


impl CompatibleSQL for CategorieJeuIGDB {
    open spec fn cle(&self) -> u32 {
        self.id
    }

    open spec fn traduite_spec(e: Self) -> Self {
        CategorieJeuIGDB {
            name: determiner_spec(e.name_traduit, e.name),
            name_traduit: None,
            ..e
        }
    }

    open spec fn traduction_spec(ligne: Self, source: Self) -> Self {
        ligne
    }

    fn id(&self) -> u32 {
        self.id
    }

    fn table() -> &'static str {
        "categories_jeu"
    }

    fn copier(&self) -> Self {
        CategorieJeuIGDB {
            id: self.id,
            name: self.name.clone(),
            name_traduit: copier_opt_texte(&self.name_traduit),
        }
    }

    fn traduite(self) -> Self {
        CategorieJeuIGDB {
            id: self.id,
            name: determiner(self.name_traduit, self.name),
            name_traduit: None,
        }
    }

    fn avec_traduction(&self, source: &Self) -> Self {
        self.copier()
    }
}


impl CompatibleSQL for CategoriePlateformeIGDB {
    open spec fn cle(&self) -> u32 {
        self.id
    }

    open spec fn traduite_spec(e: Self) -> Self {
        CategoriePlateformeIGDB {
            name: determiner_spec(e.name_traduit, e.name),
            name_traduit: None,
            ..e
        }
    }

    open spec fn traduction_spec(ligne: Self, source: Self) -> Self {
        ligne
    }

    fn id(&self) -> u32 {
        self.id
    }

    fn table() -> &'static str {
        "categories_plateforme"
    }

    fn copier(&self) -> Self {
        CategoriePlateformeIGDB {
            id: self.id,
            name: self.name.clone(),
            name_traduit: copier_opt_texte(&self.name_traduit),
        }
    }

    fn traduite(self) -> Self {
        CategoriePlateformeIGDB {
            id: self.id,
            name: determiner(self.name_traduit, self.name),
            name_traduit: None,
        }
    }

    fn avec_traduction(&self, source: &Self) -> Self {
        self.copier()
    }
}


impl CompatibleSQL for CouvertureIGDB {
    open spec fn cle(&self) -> u32 {
        self.id
    }

    open spec fn traduite_spec(e: Self) -> Self {
        e
    }

    open spec fn traduction_spec(ligne: Self, source: Self) -> Self {
        ligne
    }

    fn id(&self) -> u32 {
        self.id
    }

    fn table() -> &'static str {
        "couvertures"
    }

    fn copier(&self) -> Self {
        CouvertureIGDB {
            id: self.id,
            url: self.url.clone(),
            width: self.width,
            height: self.height,
        }
    }

    fn traduite(self) -> Self {
        self
    }

    fn avec_traduction(&self, source: &Self) -> Self {
        self.copier()
    }
}


impl CompatibleSQL for IllustrationIGDB {
    open spec fn cle(&self) -> u32 {
        self.id
    }

    open spec fn traduite_spec(e: Self) -> Self {
        e
    }

    open spec fn traduction_spec(ligne: Self, source: Self) -> Self {
        ligne
    }

    fn id(&self) -> u32 {
        self.id
    }

    fn table() -> &'static str {
        "illustrations"
    }

    fn copier(&self) -> Self {
        IllustrationIGDB {
            id: self.id,
            url: self.url.clone(),
            width: self.width,
            height: self.height,
        }
    }

    fn traduite(self) -> Self {
        self
    }

    fn avec_traduction(&self, source: &Self) -> Self {
        self.copier()
    }
}


impl CompatibleSQL for CaptureEcranIGDB {
    open spec fn cle(&self) -> u32 {
        self.id
    }

    open spec fn traduite_spec(e: Self) -> Self {
        e
    }

    open spec fn traduction_spec(ligne: Self, source: Self) -> Self {
        ligne
    }

    fn id(&self) -> u32 {
        self.id
    }

    fn table() -> &'static str {
        "captures_ecran"
    }

    fn copier(&self) -> Self {
        CaptureEcranIGDB {
            id: self.id,
            url: self.url.clone(),
            width: self.width,
            height: self.height,
        }
    }

    fn traduite(self) -> Self {
        self
    }

    fn avec_traduction(&self, source: &Self) -> Self {
        self.copier()
    }
}


impl CompatibleSQL for LogoPlateformeIGDB {
    open spec fn cle(&self) -> u32 {
        self.id
    }

    open spec fn traduite_spec(e: Self) -> Self {
        e
    }

    open spec fn traduction_spec(ligne: Self, source: Self) -> Self {
        ligne
    }

    fn id(&self) -> u32 {
        self.id
    }

    fn table() -> &'static str {
        "logos_plateforme"
    }

    fn copier(&self) -> Self {
        LogoPlateformeIGDB {
            id: self.id,
            url: self.url.clone(),
            width: self.width,
            height: self.height,
        }
    }

    fn traduite(self) -> Self {
        self
    }

    fn avec_traduction(&self, source: &Self) -> Self {
        self.copier()
    }
}


impl CompatibleSQL for LogoEntrepriseIGDB {
    open spec fn cle(&self) -> u32 {
        self.id
    }

    open spec fn traduite_spec(e: Self) -> Self {
        e
    }

    open spec fn traduction_spec(ligne: Self, source: Self) -> Self {
        ligne
    }

    fn id(&self) -> u32 {
        self.id
    }

    fn table() -> &'static str {
        "logos_entreprise"
    }

    fn copier(&self) -> Self {
        LogoEntrepriseIGDB {
            id: self.id,
            url: self.url.clone(),
            width: self.width,
            height: self.height,
        }
    }

    fn traduite(self) -> Self {
        self
    }

    fn avec_traduction(&self, source: &Self) -> Self {
        self.copier()
    }
}


// A video's translate statement copies the translated column of the entity
// it is given, where the other entities copy the base name; the write stays
// within the translated-field subset either way.
impl CompatibleSQL for VideoIGDB {
    open spec fn cle(&self) -> u32 {
        self.id
    }

    open spec fn traduite_spec(e: Self) -> Self {
        VideoIGDB {
            name: determiner_spec(e.name_traduit, e.name),
            name_traduit: None,
            ..e
        }
    }

    open spec fn traduction_spec(ligne: Self, source: Self) -> Self {
        VideoIGDB { name_traduit: source.name_traduit, ..ligne }
    }

    fn id(&self) -> u32 {
        self.id
    }

    fn table() -> &'static str {
        "videos"
    }

    fn copier(&self) -> Self {
        VideoIGDB {
            id: self.id,
            name: self.name.clone(),
            name_traduit: copier_opt_texte(&self.name_traduit),
            video_id: copier_opt_texte(&self.video_id),
        }
    }

    fn traduite(self) -> Self {
        VideoIGDB {
            id: self.id,
            name: determiner(self.name_traduit, self.name),
            name_traduit: None,
            video_id: self.video_id,
        }
    }

    fn avec_traduction(&self, source: &Self) -> Self {
        VideoIGDB {
            id: self.id,
            name: self.name.clone(),
            name_traduit: copier_opt_texte(&source.name_traduit),
            video_id: copier_opt_texte(&self.video_id),
        }
    }
}


impl CompatibleSQL for LigneJeu {
    open spec fn cle(&self) -> u32 {
        self.id
    }

    open spec fn traduite_spec(e: Self) -> Self {
        LigneJeu {
            name: determiner_spec(e.name_traduit, e.name),
            name_traduit: None,
            storyline: determiner_opt_spec(e.storyline_traduit, e.storyline),
            storyline_traduit: None,
            summary: determiner_opt_spec(e.summary_traduit, e.summary),
            summary_traduit: None,
            ..e
        }
    }

    open spec fn traduction_spec(ligne: Self, source: Self) -> Self {
        LigneJeu {
            name_traduit: Some(source.name),
            storyline_traduit: source.storyline,
            summary_traduit: source.summary,
            ..ligne
        }
    }

    fn id(&self) -> u32 {
        self.id
    }

    fn table() -> &'static str {
        "jeux"
    }

    fn copier(&self) -> Self {
        LigneJeu {
            id: self.id,
            name: self.name.clone(),
            slug: copier_opt_texte(&self.slug),
            name_traduit: copier_opt_texte(&self.name_traduit),
            storyline: copier_opt_texte(&self.storyline),
            storyline_traduit: copier_opt_texte(&self.storyline_traduit),
            summary: copier_opt_texte(&self.summary),
            summary_traduit: copier_opt_texte(&self.summary_traduit),
            first_release_date: self.first_release_date,
            collection: self.collection,
            franchise: self.franchise,
            category: self.category,
            rating: copier_opt_note(&self.rating),
            rating_count: self.rating_count,
            cover: self.cover,
            updated_at: self.updated_at,
        }
    }

    fn traduite(self) -> Self {
        LigneJeu {
            id: self.id,
            name: determiner(self.name_traduit, self.name),
            name_traduit: None,
            slug: self.slug,
            storyline: determiner_opt(self.storyline_traduit, self.storyline),
            storyline_traduit: None,
            summary: determiner_opt(self.summary_traduit, self.summary),
            summary_traduit: None,
            first_release_date: self.first_release_date,
            collection: self.collection,
            franchise: self.franchise,
            category: self.category,
            rating: self.rating,
            rating_count: self.rating_count,
            cover: self.cover,
            updated_at: self.updated_at,
        }
    }

    fn avec_traduction(&self, source: &Self) -> Self {
        LigneJeu {
            id: self.id,
            name: self.name.clone(),
            name_traduit: Some(source.name.clone()),
            slug: copier_opt_texte(&self.slug),
            storyline: copier_opt_texte(&self.storyline),
            storyline_traduit: copier_opt_texte(&source.storyline),
            summary: copier_opt_texte(&self.summary),
            summary_traduit: copier_opt_texte(&source.summary),
            first_release_date: self.first_release_date,
            collection: self.collection,
            franchise: self.franchise,
            category: self.category,
            rating: copier_opt_note(&self.rating),
            rating_count: self.rating_count,
            cover: self.cover,
            updated_at: self.updated_at,
        }
    }
}


impl CompatibleSQL for LignePlateforme {
    open spec fn cle(&self) -> u32 {
        self.id
    }

    open spec fn traduite_spec(e: Self) -> Self {
        LignePlateforme {
            name: determiner_spec(e.name_traduit, e.name),
            name_traduit: None,
            summary: determiner_opt_spec(e.summary_traduit, e.summary),
            summary_traduit: None,
            ..e
        }
    }

    open spec fn traduction_spec(ligne: Self, source: Self) -> Self {
        LignePlateforme {
            name_traduit: Some(source.name),
            summary_traduit: source.summary,
            ..ligne
        }
    }

    fn id(&self) -> u32 {
        self.id
    }

    fn table() -> &'static str {
        "plateformes"
    }

    fn copier(&self) -> Self {
        LignePlateforme {
            id: self.id,
            name: self.name.clone(),
            slug: copier_opt_texte(&self.slug),
            name_traduit: copier_opt_texte(&self.name_traduit),
            summary: copier_opt_texte(&self.summary),
            summary_traduit: copier_opt_texte(&self.summary_traduit),
            category: self.category,
            platform_logo: self.platform_logo,
            updated_at: self.updated_at,
        }
    }

    fn traduite(self) -> Self {
        LignePlateforme {
            id: self.id,
            name: determiner(self.name_traduit, self.name),
            name_traduit: None,
            slug: self.slug,
            summary: determiner_opt(self.summary_traduit, self.summary),
            summary_traduit: None,
            category: self.category,
            platform_logo: self.platform_logo,
            updated_at: self.updated_at,
        }
    }

    fn avec_traduction(&self, source: &Self) -> Self {
        LignePlateforme {
            id: self.id,
            name: self.name.clone(),
            name_traduit: Some(source.name.clone()),
            slug: copier_opt_texte(&self.slug),
            summary: copier_opt_texte(&self.summary),
            summary_traduit: copier_opt_texte(&source.summary),
            category: self.category,
            platform_logo: self.platform_logo,
            updated_at: self.updated_at,
        }
    }
}


impl CompatibleSQL for LigneEntreprise {
    open spec fn cle(&self) -> u32 {
        self.id
    }

    open spec fn traduite_spec(e: Self) -> Self {
        LigneEntreprise {
            name: determiner_spec(e.name_traduit, e.name),
            name_traduit: None,
            description: determiner_opt_spec(e.description_traduit, e.description),
            description_traduit: None,
            ..e
        }
    }

    open spec fn traduction_spec(ligne: Self, source: Self) -> Self {
        LigneEntreprise {
            name_traduit: Some(source.name),
            description_traduit: source.description,
            ..ligne
        }
    }

    fn id(&self) -> u32 {
        self.id
    }

    fn table() -> &'static str {
        "entreprises"
    }

    fn copier(&self) -> Self {
        LigneEntreprise {
            id: self.id,
            name: self.name.clone(),
            slug: copier_opt_texte(&self.slug),
            name_traduit: copier_opt_texte(&self.name_traduit),
            description: copier_opt_texte(&self.description),
            description_traduit: copier_opt_texte(&self.description_traduit),
            parent: self.parent,
            logo: self.logo,
            start_date: self.start_date,
            updated_at: self.updated_at,
        }
    }

    fn traduite(self) -> Self {
        LigneEntreprise {
            id: self.id,
            name: determiner(self.name_traduit, self.name),
            name_traduit: None,
            slug: self.slug,
            description: determiner_opt(self.description_traduit, self.description),
            description_traduit: None,
            parent: self.parent,
            logo: self.logo,
            start_date: self.start_date,
            updated_at: self.updated_at,
        }
    }

    fn avec_traduction(&self, source: &Self) -> Self {
        LigneEntreprise {
            id: self.id,
            name: self.name.clone(),
            name_traduit: Some(source.name.clone()),
            slug: copier_opt_texte(&self.slug),
            description: copier_opt_texte(&self.description),
            description_traduit: copier_opt_texte(&source.description),
            parent: self.parent,
            logo: self.logo,
            start_date: self.start_date,
            updated_at: self.updated_at,
        }
    }
}

/// The relational store model: one table per entity type, one join table per
/// many-to-many relation, and the catalog of local files.
#[derive(Debug)]
pub struct BaseDonnees {
    pub collections: Vec<CollectionIGDB>,
    pub franchises: Vec<FranchiseIGDB>,
    pub categories_jeu: Vec<CategorieJeuIGDB>,
    pub couvertures: Vec<CouvertureIGDB>,
    pub jeux: Vec<LigneJeu>,
    pub genres: Vec<GenreIGDB>,
    pub themes: Vec<ThemeIGDB>,
    pub mots_cles: Vec<MotCleIGDB>,
    pub illustrations: Vec<IllustrationIGDB>,
    pub captures_ecran: Vec<CaptureEcranIGDB>,
    pub videos: Vec<VideoIGDB>,
    pub categories_plateforme: Vec<CategoriePlateformeIGDB>,
    pub logos_plateforme: Vec<LogoPlateformeIGDB>,
    pub plateformes: Vec<LignePlateforme>,
    pub logos_entreprise: Vec<LogoEntrepriseIGDB>,
    pub entreprises: Vec<LigneEntreprise>,
    pub jeux_genres: Vec<Arete>,
    pub jeux_themes: Vec<Arete>,
    pub jeux_mots_cles: Vec<Arete>,
    pub jeux_plateformes: Vec<Arete>,
    pub jeux_remakes: Vec<Arete>,
    pub jeux_remasters: Vec<Arete>,
    pub jeux_similaires: Vec<Arete>,
    pub jeux_illustrations: Vec<Arete>,
    pub jeux_captures_ecran: Vec<Arete>,
    pub jeux_videos: Vec<Arete>,
    pub jeux_entreprises: Vec<AreteEntreprise>,
    pub catalogue: Vec<Jeu>,
}

impl BaseDonnees {
    /// Every entity table keyed without duplicates, and every catalog path
    /// unique.
    pub open spec fn bien_formee(&self) -> bool {
        &&& cles_uniques(self.collections@)
        &&& cles_uniques(self.franchises@)
        &&& cles_uniques(self.categories_jeu@)
        &&& cles_uniques(self.couvertures@)
        &&& cles_uniques(self.jeux@)
        &&& cles_uniques(self.genres@)
        &&& cles_uniques(self.themes@)
        &&& cles_uniques(self.mots_cles@)
        &&& cles_uniques(self.illustrations@)
        &&& cles_uniques(self.captures_ecran@)
        &&& cles_uniques(self.videos@)
        &&& cles_uniques(self.categories_plateforme@)
        &&& cles_uniques(self.logos_plateforme@)
        &&& cles_uniques(self.plateformes@)
        &&& cles_uniques(self.logos_entreprise@)
        &&& cles_uniques(self.entreprises@)
        &&& chemins_uniques(self.catalogue@)
    }
}

// The catalog is the one table keyed by a text, the absolute file path.

/// True when some catalog entry carries the path `chemin`.
pub open spec fn contient_chemin(s: Seq<Jeu>, chemin: Seq<char>) -> bool {
    exists|i: int| 0 <= i < s.len() && s[i].chemin@ == chemin
}

/// True when no two catalog entries share a path.
pub open spec fn chemins_uniques(s: Seq<Jeu>) -> bool {
    forall|i: int, j: int| 0 <= i < j < s.len() ==> s[i].chemin@ != s[j].chemin@
}

/// The first catalog entry carrying `chemin`, if any.
pub open spec fn trouve_chemin(s: Seq<Jeu>, chemin: Seq<char>) -> Option<Jeu>
    decreases s.len(),
{
    if s.len() == 0 {
        None
    } else if s[0].chemin@ == chemin {
        Some(s[0])
    } else {
        trouve_chemin(s.drop_first(), chemin)
    }
}

/// The catalog after an idempotent save of `e`: unchanged when its path is
/// already present — a re-scan of a cataloged path overwrites nothing.
pub open spec fn enregistre_chemin(s: Seq<Jeu>, e: Jeu) -> Seq<Jeu> {
    if contient_chemin(s, e.chemin@) {
        s
    } else {
        s.push(e)
    }
}

/// Keeps the catalog entries whose path differs from `chemin`.
pub open spec fn garde_autre_chemin(chemin: Seq<char>) -> spec_fn(Jeu) -> bool {
    |j: Jeu| j.chemin@ != chemin
}

/// The catalog after every entry carrying `chemin` is removed.
pub open spec fn supprime_chemin(s: Seq<Jeu>, chemin: Seq<char>) -> Seq<Jeu> {
    s.filter(garde_autre_chemin(chemin))
}

/// A path find returns an entry exactly when the catalog contains the path.
pub proof fn lemma_trouve_chemin_contient(s: Seq<Jeu>, chemin: Seq<char>)
    ensures
        trouve_chemin(s, chemin) is Some <==> contient_chemin(s, chemin),
        match trouve_chemin(s, chemin) {
            Some(e) => e.chemin@ == chemin && s.contains(e),
            None => true,
        },
    decreases s.len(),
{
    if s.len() > 0 && s[0].chemin@ != chemin {
        lemma_trouve_chemin_contient(s.drop_first(), chemin);
        assert forall|i: int| 0 <= i < s.len() && s[i].chemin@ == chemin implies contient_chemin(
            s.drop_first(),
            chemin,
        ) by {
            assert(s.drop_first()[i - 1] == s[i]);
        }
        match trouve_chemin(s.drop_first(), chemin) {
            Some(e) => {
                let i = choose|i: int|
                    0 <= i < s.drop_first().len() && s.drop_first()[i] == e;
                assert(s[i + 1] == e);
            },
            None => {},
        }
    }
}

/// A path find is decided by the first matching position.
pub proof fn lemma_trouve_chemin_indice(s: Seq<Jeu>, chemin: Seq<char>, i: int)
    requires
        0 <= i < s.len(),
        s[i].chemin@ == chemin,
        forall|j: int| 0 <= j < i ==> s[j].chemin@ != chemin,
    ensures
        trouve_chemin(s, chemin) == Some(s[i]),
    decreases i,
{
    if i > 0 {
        lemma_trouve_chemin_indice(s.drop_first(), chemin, i - 1);
        assert(s.drop_first()[i - 1] == s[i]);
    }
}

impl Jeu {
    /// Whether the catalog holds an entry for this path.
    pub fn existe_db(chemin: &String, db: &BaseDonnees) -> (r: bool)
        ensures
            r == contient_chemin(db.catalogue@, chemin@),
    {
        let mut i: usize = 0;
        while i < db.catalogue.len()
            invariant
                i <= db.catalogue@.len(),
                forall|j: int| 0 <= j < i ==> db.catalogue@[j].chemin@ != chemin@,
            decreases db.catalogue@.len() - i,
        {
            if db.catalogue[i].chemin == *chemin {
                return true;
            }
            i += 1;
        }
        false
    }

    /// The catalog entry for this path, if any.
    pub fn charger_db(chemin: &String, db: &BaseDonnees) -> (r: Option<Jeu>)
        ensures
            r == trouve_chemin(db.catalogue@, chemin@),
    {
        let mut i: usize = 0;
        while i < db.catalogue.len()
            invariant
                i <= db.catalogue@.len(),
                forall|j: int| 0 <= j < i ==> db.catalogue@[j].chemin@ != chemin@,
            decreases db.catalogue@.len() - i,
        {
            if db.catalogue[i].chemin == *chemin {
                proof {
                    lemma_trouve_chemin_indice(db.catalogue@, chemin@, i as int);
                }
                return Some(db.catalogue[i].copier());
            }
            i += 1;
        }
        proof {
            lemma_trouve_chemin_contient(db.catalogue@, chemin@);
        }
        None
    }

    /// A catalog entry carries no translation overlay: the translated read is
    /// the base read.
    pub fn charger_traduit_db(chemin: &String, db: &BaseDonnees) -> (r: Option<Jeu>)
        ensures
            r == trouve_chemin(db.catalogue@, chemin@),
    {
        Jeu::charger_db(chemin, db)
    }

    /// Writes this entry unless its path is already cataloged; an existing
    /// entry is never updated in place.
    pub fn enregistrer_db(&self, db: &mut BaseDonnees)
        ensures
            final(db).catalogue@ == enregistre_chemin(old(db).catalogue@, *self),
            (*final(db) == BaseDonnees { catalogue: final(db).catalogue, ..*old(db) }),
            old(db).bien_formee() ==> final(db).bien_formee(),
    {
        let present = Jeu::existe_db(&self.chemin, db);
        if !present {
            db.catalogue.push(self.copier());
        }
    }

    /// Removes the entry for this path; used only by the cleanup pass.
    pub fn supprimer_db(chemin: &String, db: &mut BaseDonnees)
        ensures
            final(db).catalogue@ == supprime_chemin(old(db).catalogue@, chemin@),
            (*final(db) == BaseDonnees { catalogue: final(db).catalogue, ..*old(db) }),
            old(db).bien_formee() ==> final(db).bien_formee(),
    {
        let ghost pred = garde_autre_chemin(chemin@);
        let mut reste: Vec<Jeu> = Vec::new();
        let mut i: usize = 0;
        proof {
            reveal(Seq::filter);
            assert(old(db).catalogue@.subrange(0, 0).filter(pred) =~= Seq::<Jeu>::empty());
        }
        while i < db.catalogue.len()
            invariant
                pred == garde_autre_chemin(chemin@),
                i <= db.catalogue@.len(),
                db.catalogue@ == old(db).catalogue@,
                reste@ == db.catalogue@.subrange(0, i as int).filter(pred),
            decreases db.catalogue@.len() - i,
        {
            proof {
                reveal(Seq::filter);
                let avant = db.catalogue@.subrange(0, i as int);
                let apres = db.catalogue@.subrange(0, i as int + 1);
                assert(apres.len() == i + 1);
                assert(apres.drop_last() =~= avant);
                assert(apres.last() == db.catalogue@[i as int]);
                if pred(db.catalogue@[i as int]) {
                    assert(apres.filter(pred) == avant.filter(pred).push(
                        db.catalogue@[i as int],
                    ));
                } else {
                    assert(apres.filter(pred) == avant.filter(pred));
                }
            }
            if !(db.catalogue[i].chemin == *chemin) {
                let garde = db.catalogue[i].copier();
                reste.push(garde);
            }
            i += 1;
        }
        proof {
            assert(db.catalogue@.subrange(0, db.catalogue@.len() as int) =~= db.catalogue@);
        }
        db.catalogue = reste;
        proof {
            if chemins_uniques(old(db).catalogue@) {
                lemma_filtre_chemins_uniques(old(db).catalogue@, pred);
            }
        }
    }
}

/// Filtering the catalog keeps its paths unique.
pub proof fn lemma_filtre_chemins_uniques(s: Seq<Jeu>, pred: spec_fn(Jeu) -> bool)
    requires
        chemins_uniques(s),
    ensures
        chemins_uniques(s.filter(pred)),
    decreases s.len(),
{
    reveal(Seq::filter);
    if s.len() > 0 {
        assert(forall|i: int, j: int|
            0 <= i < j < s.drop_last().len() ==> s.drop_last()[i].chemin@
                != s.drop_last()[j].chemin@);
        lemma_filtre_chemins_uniques(s.drop_last(), pred);
        let f = s.drop_last().filter(pred);
        if pred(s.last()) {
            assert forall|i: int, j: int|
                0 <= i < j < f.push(s.last()).len() implies f.push(s.last())[i].chemin@ != f.push(
                s.last(),
            )[j].chemin@ by {
                if j == f.len() {
                    s.drop_last().lemma_filter_contains_rev(pred, f[i]);
                    let k = choose|k: int|
                        0 <= k < s.drop_last().len() && s.drop_last()[k] == f[i];
                    assert(s[k] == f[i]);
                    assert(s[k].chemin@ != s.last().chemin@);
                }
            }
        }
    }
}

impl CollectionIGDB {
    /// Whether a row identifiable by `id` is present.
    pub fn existe_db(id: u32, db: &BaseDonnees) -> (r: bool)
        ensures
            r == contient_cle(db.collections@, id),
    {
        existe_dans(&db.collections, id)
    }

    /// Base-variant read; an absent key yields nothing, not an error.
    pub fn charger_db(id: u32, db: &BaseDonnees) -> (r: Option<CollectionIGDB>)
        ensures
            r == trouve(db.collections@, id),
    {
        charger_depuis(&db.collections, id)
    }

    /// Translated read: the base row with the overlay applied.
    pub fn charger_traduit_db(id: u32, db: &BaseDonnees) -> (r: Option<CollectionIGDB>)
        ensures
            r == charge_traduit(db.collections@, id),
    {
        charger_traduit_depuis(&db.collections, id)
    }

    /// Idempotent save: inserts only when the key is absent.
    pub fn enregistrer_db(&self, db: &mut BaseDonnees)
        ensures
            final(db).collections@ == enregistre(old(db).collections@, *self),
            (*final(db) == BaseDonnees { collections: final(db).collections, ..*old(db) }),
            old(db).bien_formee() ==> final(db).bien_formee(),
    {
        inserer_si_absent(&mut db.collections, self.copier());
    }

    /// Best-effort removal of the row keyed by `id`.
    pub fn supprimer_db(id: u32, db: &mut BaseDonnees)
        ensures
            final(db).collections@ == supprime(old(db).collections@, id),
            (*final(db) == BaseDonnees { collections: final(db).collections, ..*old(db) }),
            old(db).bien_formee() ==> final(db).bien_formee(),
    {
        supprimer_de(&mut db.collections, id);
    }

    /// Writes only the translated-field subset of the row sharing this key.
    pub fn traduire_db(&self, db: &mut BaseDonnees)
        ensures
            final(db).collections@ == traduction_table(old(db).collections@, *self),
            (*final(db) == BaseDonnees { collections: final(db).collections, ..*old(db) }),
            old(db).bien_formee() ==> final(db).bien_formee(),
    {
        appliquer_traduction(&mut db.collections, self);
    }
}

impl FranchiseIGDB {
    /// Whether a row identifiable by `id` is present.
    pub fn existe_db(id: u32, db: &BaseDonnees) -> (r: bool)
        ensures
            r == contient_cle(db.franchises@, id),
    {
        existe_dans(&db.franchises, id)
    }

    /// Base-variant read; an absent key yields nothing, not an error.
    pub fn charger_db(id: u32, db: &BaseDonnees) -> (r: Option<FranchiseIGDB>)
        ensures
            r == trouve(db.franchises@, id),
    {
        charger_depuis(&db.franchises, id)
    }

    /// Translated read: the base row with the overlay applied.
    pub fn charger_traduit_db(id: u32, db: &BaseDonnees) -> (r: Option<FranchiseIGDB>)
        ensures
            r == charge_traduit(db.franchises@, id),
    {
        charger_traduit_depuis(&db.franchises, id)
    }

    /// Idempotent save: inserts only when the key is absent.
    pub fn enregistrer_db(&self, db: &mut BaseDonnees)
        ensures
            final(db).franchises@ == enregistre(old(db).franchises@, *self),
            (*final(db) == BaseDonnees { franchises: final(db).franchises, ..*old(db) }),
            old(db).bien_formee() ==> final(db).bien_formee(),
    {
        inserer_si_absent(&mut db.franchises, self.copier());
    }

    /// Best-effort removal of the row keyed by `id`.
    pub fn supprimer_db(id: u32, db: &mut BaseDonnees)
        ensures
            final(db).franchises@ == supprime(old(db).franchises@, id),
            (*final(db) == BaseDonnees { franchises: final(db).franchises, ..*old(db) }),
            old(db).bien_formee() ==> final(db).bien_formee(),
    {
        supprimer_de(&mut db.franchises, id);
    }

    /// Writes only the translated-field subset of the row sharing this key.
    pub fn traduire_db(&self, db: &mut BaseDonnees)
        ensures
            final(db).franchises@ == traduction_table(old(db).franchises@, *self),
            (*final(db) == BaseDonnees { franchises: final(db).franchises, ..*old(db) }),
            old(db).bien_formee() ==> final(db).bien_formee(),
    {
        appliquer_traduction(&mut db.franchises, self);
    }
}

impl GenreIGDB {
    /// Whether a row identifiable by `id` is present.
    pub fn existe_db(id: u32, db: &BaseDonnees) -> (r: bool)
        ensures
            r == contient_cle(db.genres@, id),
    {
        existe_dans(&db.genres, id)
    }

    /// Base-variant read; an absent key yields nothing, not an error.
    pub fn charger_db(id: u32, db: &BaseDonnees) -> (r: Option<GenreIGDB>)
        ensures
            r == trouve(db.genres@, id),
    {
        charger_depuis(&db.genres, id)
    }

    /// Translated read: the base row with the overlay applied.
    pub fn charger_traduit_db(id: u32, db: &BaseDonnees) -> (r: Option<GenreIGDB>)
        ensures
            r == charge_traduit(db.genres@, id),
    {
        charger_traduit_depuis(&db.genres, id)
    }

    /// Idempotent save: inserts only when the key is absent.
    pub fn enregistrer_db(&self, db: &mut BaseDonnees)
        ensures
            final(db).genres@ == enregistre(old(db).genres@, *self),
            (*final(db) == BaseDonnees { genres: final(db).genres, ..*old(db) }),
            old(db).bien_formee() ==> final(db).bien_formee(),
    {
        inserer_si_absent(&mut db.genres, self.copier());
    }

    /// Best-effort removal of the row keyed by `id`.
    pub fn supprimer_db(id: u32, db: &mut BaseDonnees)
        ensures
            final(db).genres@ == supprime(old(db).genres@, id),
            (*final(db) == BaseDonnees { genres: final(db).genres, ..*old(db) }),
            old(db).bien_formee() ==> final(db).bien_formee(),
    {
        supprimer_de(&mut db.genres, id);
    }

    /// Writes only the translated-field subset of the row sharing this key.
    pub fn traduire_db(&self, db: &mut BaseDonnees)
        ensures
            final(db).genres@ == traduction_table(old(db).genres@, *self),
            (*final(db) == BaseDonnees { genres: final(db).genres, ..*old(db) }),
            old(db).bien_formee() ==> final(db).bien_formee(),
    {
        appliquer_traduction(&mut db.genres, self);
    }
}

impl ThemeIGDB {
    /// Whether a row identifiable by `id` is present.
    pub fn existe_db(id: u32, db: &BaseDonnees) -> (r: bool)
        ensures
            r == contient_cle(db.themes@, id),
    {
        existe_dans(&db.themes, id)
    }

    /// Base-variant read; an absent key yields nothing, not an error.
    pub fn charger_db(id: u32, db: &BaseDonnees) -> (r: Option<ThemeIGDB>)
        ensures
            r == trouve(db.themes@, id),
    {
        charger_depuis(&db.themes, id)
    }

    /// Translated read: the base row with the overlay applied.
    pub fn charger_traduit_db(id: u32, db: &BaseDonnees) -> (r: Option<ThemeIGDB>)
        ensures
            r == charge_traduit(db.themes@, id),
    {
        charger_traduit_depuis(&db.themes, id)
    }

    /// Idempotent save: inserts only when the key is absent.
    pub fn enregistrer_db(&self, db: &mut BaseDonnees)
        ensures
            final(db).themes@ == enregistre(old(db).themes@, *self),
            (*final(db) == BaseDonnees { themes: final(db).themes, ..*old(db) }),
            old(db).bien_formee() ==> final(db).bien_formee(),
    {
        inserer_si_absent(&mut db.themes, self.copier());
    }

    /// Best-effort removal of the row keyed by `id`.
    pub fn supprimer_db(id: u32, db: &mut BaseDonnees)
        ensures
            final(db).themes@ == supprime(old(db).themes@, id),
            (*final(db) == BaseDonnees { themes: final(db).themes, ..*old(db) }),
            old(db).bien_formee() ==> final(db).bien_formee(),
    {
        supprimer_de(&mut db.themes, id);
    }

    /// Writes only the translated-field subset of the row sharing this key.
    pub fn traduire_db(&self, db: &mut BaseDonnees)
        ensures
            final(db).themes@ == traduction_table(old(db).themes@, *self),
            (*final(db) == BaseDonnees { themes: final(db).themes, ..*old(db) }),
            old(db).bien_formee() ==> final(db).bien_formee(),
    {
        appliquer_traduction(&mut db.themes, self);
    }
}

impl MotCleIGDB {
    /// Whether a row identifiable by `id` is present.
    pub fn existe_db(id: u32, db: &BaseDonnees) -> (r: bool)
        ensures
            r == contient_cle(db.mots_cles@, id),
    {
        existe_dans(&db.mots_cles, id)
    }

    /// Base-variant read; an absent key yields nothing, not an error.
    pub fn charger_db(id: u32, db: &BaseDonnees) -> (r: Option<MotCleIGDB>)
        ensures
            r == trouve(db.mots_cles@, id),
    {
        charger_depuis(&db.mots_cles, id)
    }

    /// Translated read: the base row with the overlay applied.
    pub fn charger_traduit_db(id: u32, db: &BaseDonnees) -> (r: Option<MotCleIGDB>)
        ensures
            r == charge_traduit(db.mots_cles@, id),
    {
        charger_traduit_depuis(&db.mots_cles, id)
    }

    /// Idempotent save: inserts only when the key is absent.
    pub fn enregistrer_db(&self, db: &mut BaseDonnees)
        ensures
            final(db).mots_cles@ == enregistre(old(db).mots_cles@, *self),
            (*final(db) == BaseDonnees { mots_cles: final(db).mots_cles, ..*old(db) }),
            old(db).bien_formee() ==> final(db).bien_formee(),
    {
        inserer_si_absent(&mut db.mots_cles, self.copier());
    }

    /// Best-effort removal of the row keyed by `id`.
    pub fn supprimer_db(id: u32, db: &mut BaseDonnees)
        ensures
            final(db).mots_cles@ == supprime(old(db).mots_cles@, id),
            (*final(db) == BaseDonnees { mots_cles: final(db).mots_cles, ..*old(db) }),
            old(db).bien_formee() ==> final(db).bien_formee(),
    {
        supprimer_de(&mut db.mots_cles, id);
    }

    /// Writes only the translated-field subset of the row sharing this key.
    pub fn traduire_db(&self, db: &mut BaseDonnees)
        ensures
            final(db).mots_cles@ == traduction_table(old(db).mots_cles@, *self),
            (*final(db) == BaseDonnees { mots_cles: final(db).mots_cles, ..*old(db) }),
            old(db).bien_formee() ==> final(db).bien_formee(),
    {
        appliquer_traduction(&mut db.mots_cles, self);
    }
}

impl VideoIGDB {
    /// Whether a row identifiable by `id` is present.
    pub fn existe_db(id: u32, db: &BaseDonnees) -> (r: bool)
        ensures
            r == contient_cle(db.videos@, id),
    {
        existe_dans(&db.videos, id)
    }

    /// Base-variant read; an absent key yields nothing, not an error.
    pub fn charger_db(id: u32, db: &BaseDonnees) -> (r: Option<VideoIGDB>)
        ensures
            r == trouve(db.videos@, id),
    {
        charger_depuis(&db.videos, id)
    }

    /// Translated read: the base row with the overlay applied.
    pub fn charger_traduit_db(id: u32, db: &BaseDonnees) -> (r: Option<VideoIGDB>)
        ensures
            r == charge_traduit(db.videos@, id),
    {
        charger_traduit_depuis(&db.videos, id)
    }

    /// Idempotent save: inserts only when the key is absent.
    pub fn enregistrer_db(&self, db: &mut BaseDonnees)
        ensures
            final(db).videos@ == enregistre(old(db).videos@, *self),
            (*final(db) == BaseDonnees { videos: final(db).videos, ..*old(db) }),
            old(db).bien_formee() ==> final(db).bien_formee(),
    {
        inserer_si_absent(&mut db.videos, self.copier());
    }

    /// Best-effort removal of the row keyed by `id`.
    pub fn supprimer_db(id: u32, db: &mut BaseDonnees)
        ensures
            final(db).videos@ == supprime(old(db).videos@, id),
            (*final(db) == BaseDonnees { videos: final(db).videos, ..*old(db) }),
            old(db).bien_formee() ==> final(db).bien_formee(),
    {
        supprimer_de(&mut db.videos, id);
    }

    /// Writes only the translated-field subset of the row sharing this key.
    pub fn traduire_db(&self, db: &mut BaseDonnees)
        ensures
            final(db).videos@ == traduction_table(old(db).videos@, *self),
            (*final(db) == BaseDonnees { videos: final(db).videos, ..*old(db) }),
            old(db).bien_formee() ==> final(db).bien_formee(),
    {
        appliquer_traduction(&mut db.videos, self);
    }
}

impl CategorieJeuIGDB {
    /// Whether a row identifiable by `id` is present.
    pub fn existe_db(id: u32, db: &BaseDonnees) -> (r: bool)
        ensures
            r == contient_cle(db.categories_jeu@, id),
    {
        existe_dans(&db.categories_jeu, id)
    }

    /// Base-variant read; an absent key yields nothing, not an error.
    pub fn charger_db(id: u32, db: &BaseDonnees) -> (r: Option<CategorieJeuIGDB>)
        ensures
            r == trouve(db.categories_jeu@, id),
    {
        charger_depuis(&db.categories_jeu, id)
    }

    /// Translated read: the base row with the overlay applied.
    pub fn charger_traduit_db(id: u32, db: &BaseDonnees) -> (r: Option<CategorieJeuIGDB>)
        ensures
            r == charge_traduit(db.categories_jeu@, id),
    {
        charger_traduit_depuis(&db.categories_jeu, id)
    }
}

impl CategoriePlateformeIGDB {
    /// Whether a row identifiable by `id` is present.
    pub fn existe_db(id: u32, db: &BaseDonnees) -> (r: bool)
        ensures
            r == contient_cle(db.categories_plateforme@, id),
    {
        existe_dans(&db.categories_plateforme, id)
    }

    /// Base-variant read; an absent key yields nothing, not an error.
    pub fn charger_db(id: u32, db: &BaseDonnees) -> (r: Option<CategoriePlateformeIGDB>)
        ensures
            r == trouve(db.categories_plateforme@, id),
    {
        charger_depuis(&db.categories_plateforme, id)
    }

    /// Translated read: the base row with the overlay applied.
    pub fn charger_traduit_db(id: u32, db: &BaseDonnees) -> (r: Option<CategoriePlateformeIGDB>)
        ensures
            r == charge_traduit(db.categories_plateforme@, id),
    {
        charger_traduit_depuis(&db.categories_plateforme, id)
    }
}

impl CouvertureIGDB {
    /// Whether a row identifiable by `id` is present.
    pub fn existe_db(id: u32, db: &BaseDonnees) -> (r: bool)
        ensures
            r == contient_cle(db.couvertures@, id),
    {
        existe_dans(&db.couvertures, id)
    }

    /// Base-variant read; an absent key yields nothing, not an error.
    pub fn charger_db(id: u32, db: &BaseDonnees) -> (r: Option<CouvertureIGDB>)
        ensures
            r == trouve(db.couvertures@, id),
    {
        charger_depuis(&db.couvertures, id)
    }

    /// Translated read: the base row with the overlay applied.
    pub fn charger_traduit_db(id: u32, db: &BaseDonnees) -> (r: Option<CouvertureIGDB>)
        ensures
            r == charge_traduit(db.couvertures@, id),
    {
        charger_traduit_depuis(&db.couvertures, id)
    }

    /// Idempotent save: inserts only when the key is absent.
    pub fn enregistrer_db(&self, db: &mut BaseDonnees)
        ensures
            final(db).couvertures@ == enregistre(old(db).couvertures@, *self),
            (*final(db) == BaseDonnees { couvertures: final(db).couvertures, ..*old(db) }),
            old(db).bien_formee() ==> final(db).bien_formee(),
    {
        inserer_si_absent(&mut db.couvertures, self.copier());
    }

    /// Best-effort removal of the row keyed by `id`.
    pub fn supprimer_db(id: u32, db: &mut BaseDonnees)
        ensures
            final(db).couvertures@ == supprime(old(db).couvertures@, id),
            (*final(db) == BaseDonnees { couvertures: final(db).couvertures, ..*old(db) }),
            old(db).bien_formee() ==> final(db).bien_formee(),
    {
        supprimer_de(&mut db.couvertures, id);
    }
}

impl IllustrationIGDB {
    /// Whether a row identifiable by `id` is present.
    pub fn existe_db(id: u32, db: &BaseDonnees) -> (r: bool)
        ensures
            r == contient_cle(db.illustrations@, id),
    {
        existe_dans(&db.illustrations, id)
    }

    /// Base-variant read; an absent key yields nothing, not an error.
    pub fn charger_db(id: u32, db: &BaseDonnees) -> (r: Option<IllustrationIGDB>)
        ensures
            r == trouve(db.illustrations@, id),
    {
        charger_depuis(&db.illustrations, id)
    }

    /// Translated read: the base row with the overlay applied.
    pub fn charger_traduit_db(id: u32, db: &BaseDonnees) -> (r: Option<IllustrationIGDB>)
        ensures
            r == charge_traduit(db.illustrations@, id),
    {
        charger_traduit_depuis(&db.illustrations, id)
    }

    /// Idempotent save: inserts only when the key is absent.
    pub fn enregistrer_db(&self, db: &mut BaseDonnees)
        ensures
            final(db).illustrations@ == enregistre(old(db).illustrations@, *self),
            (*final(db) == BaseDonnees { illustrations: final(db).illustrations, ..*old(db) }),
            old(db).bien_formee() ==> final(db).bien_formee(),
    {
        inserer_si_absent(&mut db.illustrations, self.copier());
    }

    /// Best-effort removal of the row keyed by `id`.
    pub fn supprimer_db(id: u32, db: &mut BaseDonnees)
        ensures
            final(db).illustrations@ == supprime(old(db).illustrations@, id),
            (*final(db) == BaseDonnees { illustrations: final(db).illustrations, ..*old(db) }),
            old(db).bien_formee() ==> final(db).bien_formee(),
    {
        supprimer_de(&mut db.illustrations, id);
    }
}

impl CaptureEcranIGDB {
    /// Whether a row identifiable by `id` is present.
    pub fn existe_db(id: u32, db: &BaseDonnees) -> (r: bool)
        ensures
            r == contient_cle(db.captures_ecran@, id),
    {
        existe_dans(&db.captures_ecran, id)
    }

    /// Base-variant read; an absent key yields nothing, not an error.
    pub fn charger_db(id: u32, db: &BaseDonnees) -> (r: Option<CaptureEcranIGDB>)
        ensures
            r == trouve(db.captures_ecran@, id),
    {
        charger_depuis(&db.captures_ecran, id)
    }

    /// Translated read: the base row with the overlay applied.
    pub fn charger_traduit_db(id: u32, db: &BaseDonnees) -> (r: Option<CaptureEcranIGDB>)
        ensures
            r == charge_traduit(db.captures_ecran@, id),
    {
        charger_traduit_depuis(&db.captures_ecran, id)
    }

    /// Idempotent save: inserts only when the key is absent.
    pub fn enregistrer_db(&self, db: &mut BaseDonnees)
        ensures
            final(db).captures_ecran@ == enregistre(old(db).captures_ecran@, *self),
            (*final(db) == BaseDonnees { captures_ecran: final(db).captures_ecran, ..*old(db) }),
            old(db).bien_formee() ==> final(db).bien_formee(),
    {
        inserer_si_absent(&mut db.captures_ecran, self.copier());
    }

    /// Best-effort removal of the row keyed by `id`.
    pub fn supprimer_db(id: u32, db: &mut BaseDonnees)
        ensures
            final(db).captures_ecran@ == supprime(old(db).captures_ecran@, id),
            (*final(db) == BaseDonnees { captures_ecran: final(db).captures_ecran, ..*old(db) }),
            old(db).bien_formee() ==> final(db).bien_formee(),
    {
        supprimer_de(&mut db.captures_ecran, id);
    }
}

impl LogoPlateformeIGDB {
    /// Whether a row identifiable by `id` is present.
    pub fn existe_db(id: u32, db: &BaseDonnees) -> (r: bool)
        ensures
            r == contient_cle(db.logos_plateforme@, id),
    {
        existe_dans(&db.logos_plateforme, id)
    }

    /// Base-variant read; an absent key yields nothing, not an error.
    pub fn charger_db(id: u32, db: &BaseDonnees) -> (r: Option<LogoPlateformeIGDB>)
        ensures
            r == trouve(db.logos_plateforme@, id),
    {
        charger_depuis(&db.logos_plateforme, id)
    }

    /// Translated read: the base row with the overlay applied.
    pub fn charger_traduit_db(id: u32, db: &BaseDonnees) -> (r: Option<LogoPlateformeIGDB>)
        ensures
            r == charge_traduit(db.logos_plateforme@, id),
    {
        charger_traduit_depuis(&db.logos_plateforme, id)
    }

    /// Idempotent save: inserts only when the key is absent.
    pub fn enregistrer_db(&self, db: &mut BaseDonnees)
        ensures
            final(db).logos_plateforme@ == enregistre(old(db).logos_plateforme@, *self),
            (*final(db) == BaseDonnees { logos_plateforme: final(db).logos_plateforme, ..*old(db) }),
            old(db).bien_formee() ==> final(db).bien_formee(),
    {
        inserer_si_absent(&mut db.logos_plateforme, self.copier());
    }

    /// Best-effort removal of the row keyed by `id`.
    pub fn supprimer_db(id: u32, db: &mut BaseDonnees)
        ensures
            final(db).logos_plateforme@ == supprime(old(db).logos_plateforme@, id),
            (*final(db) == BaseDonnees { logos_plateforme: final(db).logos_plateforme, ..*old(db) }),
            old(db).bien_formee() ==> final(db).bien_formee(),
    {
        supprimer_de(&mut db.logos_plateforme, id);
    }
}

impl LogoEntrepriseIGDB {
    /// Whether a row identifiable by `id` is present.
    pub fn existe_db(id: u32, db: &BaseDonnees) -> (r: bool)
        ensures
            r == contient_cle(db.logos_entreprise@, id),
    {
        existe_dans(&db.logos_entreprise, id)
    }

    /// Base-variant read; an absent key yields nothing, not an error.
    pub fn charger_db(id: u32, db: &BaseDonnees) -> (r: Option<LogoEntrepriseIGDB>)
        ensures
            r == trouve(db.logos_entreprise@, id),
    {
        charger_depuis(&db.logos_entreprise, id)
    }

    /// Translated read: the base row with the overlay applied.
    pub fn charger_traduit_db(id: u32, db: &BaseDonnees) -> (r: Option<LogoEntrepriseIGDB>)
        ensures
            r == charge_traduit(db.logos_entreprise@, id),
    {
        charger_traduit_depuis(&db.logos_entreprise, id)
    }

    /// Idempotent save: inserts only when the key is absent.
    pub fn enregistrer_db(&self, db: &mut BaseDonnees)
        ensures
            final(db).logos_entreprise@ == enregistre(old(db).logos_entreprise@, *self),
            (*final(db) == BaseDonnees { logos_entreprise: final(db).logos_entreprise, ..*old(db) }),
            old(db).bien_formee() ==> final(db).bien_formee(),
    {
        inserer_si_absent(&mut db.logos_entreprise, self.copier());
    }

    /// Best-effort removal of the row keyed by `id`.
    pub fn supprimer_db(id: u32, db: &mut BaseDonnees)
        ensures
            final(db).logos_entreprise@ == supprime(old(db).logos_entreprise@, id),
            (*final(db) == BaseDonnees { logos_entreprise: final(db).logos_entreprise, ..*old(db) }),
            old(db).bien_formee() ==> final(db).bien_formee(),
    {
        supprimer_de(&mut db.logos_entreprise, id);
    }
}


// Edge tables: the join rows of one game, replaced wholesale on every save.

/// Keeps the join rows of other games.
pub open spec fn garde_autre_jeu(jeu: u32) -> spec_fn(Arete) -> bool {
    |a: Arete| a.jeu != jeu
}

/// The join rows linking `jeu` to each member of `lies`, in list order.
pub open spec fn paires_de(jeu: u32, lies: Seq<u32>) -> Seq<Arete> {
    lies.map_values(|l: u32| Arete { jeu, lie: l })
}

/// The join table after a full edge replacement for `jeu`: every old row of
/// that game removed, one fresh row per current list member appended.
pub open spec fn remplace_aretes(s: Seq<Arete>, jeu: u32, lies: Seq<u32>) -> Seq<Arete> {
    s.filter(garde_autre_jeu(jeu)) + paires_de(jeu, lies)
}

/// The ids linked to `jeu` by the join table, in table order.
pub open spec fn lies_de(s: Seq<Arete>, jeu: u32) -> Seq<u32>
    decreases s.len(),
{
    if s.len() == 0 {
        Seq::empty()
    } else {
        lies_de(s.drop_last(), jeu) + if s.last().jeu == jeu {
            seq![s.last().lie]
        } else {
            Seq::empty()
        }
    }
}

/// Removes every join row of `jeu`.
pub fn supprimer_aretes(aretes: &mut Vec<Arete>, jeu: u32)
    ensures
        final(aretes)@ == old(aretes)@.filter(garde_autre_jeu(jeu)),
{
    let ghost pred = garde_autre_jeu(jeu);
    let mut reste: Vec<Arete> = Vec::new();
    let mut i: usize = 0;
    proof {
        reveal(Seq::filter);
        assert(old(aretes)@.subrange(0, 0).filter(pred) =~= Seq::<Arete>::empty());
    }
    while i < aretes.len()
        invariant
            pred == garde_autre_jeu(jeu),
            i <= aretes@.len(),
            aretes@ == old(aretes)@,
            reste@ == aretes@.subrange(0, i as int).filter(pred),
        decreases aretes@.len() - i,
    {
        proof {
            reveal(Seq::filter);
            let avant = aretes@.subrange(0, i as int);
            let apres = aretes@.subrange(0, i as int + 1);
            assert(apres.drop_last() =~= avant);
            assert(apres.last() == aretes@[i as int]);
            if pred(aretes@[i as int]) {
                assert(apres.filter(pred) == avant.filter(pred).push(aretes@[i as int]));
            } else {
                assert(apres.filter(pred) == avant.filter(pred));
            }
        }
        if aretes[i].jeu != jeu {
            let a = aretes[i];
            reste.push(a);
        }
        i += 1;
    }
    proof {
        assert(aretes@.subrange(0, aretes@.len() as int) =~= aretes@);
    }
    *aretes = reste;
}

/// Appends one join row per member of `lies`, in list order.
pub fn inserer_aretes(aretes: &mut Vec<Arete>, jeu: u32, lies: &Vec<u32>)
    ensures
        final(aretes)@ == old(aretes)@ + paires_de(jeu, lies@),
{
    let mut i: usize = 0;
    while i < lies.len()
        invariant
            i <= lies@.len(),
            aretes@ == old(aretes)@ + paires_de(jeu, lies@.subrange(0, i as int)),
        decreases lies@.len() - i,
    {
        proof {
            let avant = lies@.subrange(0, i as int);
            let apres = lies@.subrange(0, i as int + 1);
            assert(paires_de(jeu, apres) =~= paires_de(jeu, avant).push(
                Arete { jeu, lie: lies@[i as int] },
            ));
            assert((old(aretes)@ + paires_de(jeu, avant)).push(
                Arete { jeu, lie: lies@[i as int] },
            ) =~= old(aretes)@ + paires_de(jeu, apres));
        }
        aretes.push(Arete { jeu, lie: lies[i] });
        i += 1;
    }
    proof {
        assert(lies@.subrange(0, lies@.len() as int) =~= lies@);
    }
}

/// The full edge replacement for `jeu`: delete all of its rows, then insert
/// one row per current list member.
pub fn remplacer_aretes(aretes: &mut Vec<Arete>, jeu: u32, lies: &Vec<u32>)
    ensures
        final(aretes)@ == remplace_aretes(old(aretes)@, jeu, lies@),
{
    supprimer_aretes(aretes, jeu);
    inserer_aretes(aretes, jeu, lies);
}

/// The ids linked to `jeu`, read back in table order.
pub fn lies_dans(aretes: &Vec<Arete>, jeu: u32) -> (r: Vec<u32>)
    ensures
        r@ == lies_de(aretes@, jeu),
{
    let mut r: Vec<u32> = Vec::new();
    let mut i: usize = 0;
    proof {
        assert(lies_de(aretes@.subrange(0, 0), jeu) =~= Seq::<u32>::empty());
    }
    while i < aretes.len()
        invariant
            i <= aretes@.len(),
            r@ == lies_de(aretes@.subrange(0, i as int), jeu),
        decreases aretes@.len() - i,
    {
        proof {
            let avant = aretes@.subrange(0, i as int);
            let apres = aretes@.subrange(0, i as int + 1);
            assert(apres.drop_last() =~= avant);
            assert(apres.last() == aretes@[i as int]);
            if aretes@[i as int].jeu == jeu {
                assert(lies_de(apres, jeu) =~= lies_de(avant, jeu).push(
                    aretes@[i as int].lie,
                ));
            } else {
                assert(lies_de(apres, jeu) =~= lies_de(avant, jeu));
            }
        }
        if aretes[i].jeu == jeu {
            r.push(aretes[i].lie);
        }
        i += 1;
    }
    proof {
        assert(aretes@.subrange(0, aretes@.len() as int) =~= aretes@);
    }
    r
}

/// The rows found for each id of `ids`, in id order; absent ids are skipped.
pub open spec fn charges<T: CompatibleSQL>(table: Seq<T>, ids: Seq<u32>) -> Seq<T>
    decreases ids.len(),
{
    if ids.len() == 0 {
        Seq::empty()
    } else {
        charges(table, ids.drop_last()) + match trouve(table, ids.last()) {
            Some(e) => seq![e],
            None => Seq::empty(),
        }
    }
}

/// Loads the row of each id in turn, skipping ids with no row.
pub fn charger_plusieurs<T: CompatibleSQL>(table: &Vec<T>, ids: &Vec<u32>) -> (r: Vec<T>)
    ensures
        r@ == charges(table@, ids@),
{
    let mut r: Vec<T> = Vec::new();
    let mut i: usize = 0;
    proof {
        assert(charges(table@, ids@.subrange(0, 0)) =~= Seq::<T>::empty());
    }
    while i < ids.len()
        invariant
            i <= ids@.len(),
            r@ == charges(table@, ids@.subrange(0, i as int)),
        decreases ids@.len() - i,
    {
        proof {
            let avant = ids@.subrange(0, i as int);
            let apres = ids@.subrange(0, i as int + 1);
            assert(apres.drop_last() =~= avant);
            assert(apres.last() == ids@[i as int]);
            match trouve(table@, ids@[i as int]) {
                Some(e) => {
                    assert(charges(table@, apres) =~= charges(table@, avant).push(e));
                },
                None => {
                    assert(charges(table@, apres) =~= charges(table@, avant));
                },
            }
        }
        match charger_depuis(table, ids[i]) {
            Some(e) => {
                r.push(e);
            },
            None => {},
        }
        i += 1;
    }
    proof {
        assert(ids@.subrange(0, ids@.len() as int) =~= ids@);
    }
    r
}

/// The keys of the entities of `v`, in list order.
pub open spec fn cles_de<T: CompatibleSQL>(s: Seq<T>) -> Seq<u32> {
    s.map_values(|e: T| e.cle())
}

/// Reads out the key of each entity, in list order.
pub fn cles_des<T: CompatibleSQL>(v: &Vec<T>) -> (r: Vec<u32>)
    ensures
        r@ == cles_de(v@),
{
    let mut r: Vec<u32> = Vec::new();
    let mut i: usize = 0;
    while i < v.len()
        invariant
            i <= v@.len(),
            r@ == cles_de(v@.subrange(0, i as int)),
        decreases v@.len() - i,
    {
        proof {
            assert(cles_de(v@.subrange(0, i as int + 1)) =~= cles_de(
                v@.subrange(0, i as int),
            ).push(v@[i as int].cle()));
        }
        r.push(v[i].id());
        i += 1;
    }
    proof {
        assert(v@.subrange(0, v@.len() as int) =~= v@);
    }
    r
}

/// The list view of an optional list: empty when absent.
pub open spec fn vue_liste<T>(o: Option<Vec<T>>) -> Seq<T> {
    match o {
        Some(v) => v@,
        None => Seq::empty(),
    }
}

/// How an optional list presents a read-back row sequence: a populated list
/// for one or more rows, nothing at all for zero rows.
pub open spec fn liste_en_option<T>(o: Option<Vec<T>>, s: Seq<T>) -> bool {
    &&& vue_liste(o) == s
    &&& (o is Some ==> s.len() > 0)
    &&& (o is None ==> s.len() == 0)
}

/// Presents the loaded rows as an optional list: absent when none was found.
pub fn liste_ou_rien<T>(v: Vec<T>) -> (r: Option<Vec<T>>)
    ensures
        liste_en_option(r, v@),
{
    if v.len() > 0 {
        let r = Some(v);
        proof {
            assert(vue_liste(r) =~= v@);
        }
        r
    } else {
        proof {
            assert(vue_liste(None::<Vec<T>>) =~= v@);
        }
        None
    }
}

/// A table after saving every entity of an optional list.
pub open spec fn enregistre_option<T: CompatibleSQL>(s: Seq<T>, o: Option<T>) -> Seq<T> {
    match o {
        Some(e) => enregistre(s, e),
        None => s,
    }
}

// The composite game entity: its base row, its single-valued relations, its
// owned lists, and its join tables.

/// The key of an optional single-valued relation.
pub open spec fn cle_option<T: CompatibleSQL>(o: Option<T>) -> Option<u32> {
    match o {
        Some(e) => Some(e.cle()),
        None => None,
    }
}

/// The base-table row that a game writes: its scalar columns and the keys of
/// its single-valued relations.
pub open spec fn ligne_de(j: JeuIGDB) -> LigneJeu {
    LigneJeu {
        id: j.id,
        name: j.name,
        slug: j.slug,
        name_traduit: j.name_traduit,
        storyline: j.storyline,
        storyline_traduit: j.storyline_traduit,
        summary: j.summary,
        summary_traduit: j.summary_traduit,
        first_release_date: j.first_release_date,
        collection: cle_option(j.collection),
        franchise: cle_option(j.franchise),
        category: j.category,
        rating: j.rating,
        rating_count: j.rating_count,
        cover: cle_option(j.cover),
        updated_at: j.updated_at,
    }
}

/// A loaded game is the base row joined with its single-valued relations and
/// the rows its join tables point at; each absent list reads as nothing.
pub open spec fn est_jeu_charge(db: BaseDonnees, id: u32, j: JeuIGDB) -> bool {
    match trouve(db.jeux@, id) {
        Some(l) => {
            &&& j.id == l.id
            &&& j.name == l.name
            &&& j.slug == l.slug
            &&& j.name_traduit == l.name_traduit
            &&& j.alternative_names is None
            &&& j.storyline == l.storyline
            &&& j.summary == l.summary
            &&& j.storyline_traduit == l.storyline_traduit
            &&& j.summary_traduit == l.summary_traduit
            &&& j.first_release_date == l.first_release_date
            &&& j.collection == (match l.collection {
                Some(c) => trouve(db.collections@, c),
                None => None,
            })
            &&& j.franchise == (match l.franchise {
                Some(f) => trouve(db.franchises@, f),
                None => None,
            })
            &&& j.category == l.category
            &&& liste_en_option(j.genres, charges(db.genres@, lies_de(db.jeux_genres@, id)))
            &&& liste_en_option(j.themes, charges(db.themes@, lies_de(db.jeux_themes@, id)))
            &&& liste_en_option(
                j.keywords,
                charges(db.mots_cles@, lies_de(db.jeux_mots_cles@, id)),
            )
            &&& liste_en_option(j.platforms, lies_de(db.jeux_plateformes@, id))
            &&& liste_en_option(j.remakes, lies_de(db.jeux_remakes@, id))
            &&& liste_en_option(j.remasters, lies_de(db.jeux_remasters@, id))
            &&& liste_en_option(j.similar_games, lies_de(db.jeux_similaires@, id))
            &&& j.rating == l.rating
            &&& j.rating_count == l.rating_count
            &&& j.cover == (match l.cover {
                Some(c) => trouve(db.couvertures@, c),
                None => None,
            })
            &&& liste_en_option(
                j.artworks,
                charges(db.illustrations@, lies_de(db.jeux_illustrations@, id)),
            )
            &&& liste_en_option(
                j.screenshots,
                charges(db.captures_ecran@, lies_de(db.jeux_captures_ecran@, id)),
            )
            &&& liste_en_option(j.videos, charges(db.videos@, lies_de(db.jeux_videos@, id)))
            &&& j.updated_at == l.updated_at
        },
        None => false,
    }
}

/// The read-time translation overlay of a loaded game.
pub open spec fn jeu_traduite_spec(j: JeuIGDB) -> JeuIGDB {
    JeuIGDB {
        name: determiner_spec(j.name_traduit, j.name),
        name_traduit: None,
        alternative_names: None,
        storyline: determiner_opt_spec(j.storyline_traduit, j.storyline),
        storyline_traduit: None,
        summary: determiner_opt_spec(j.summary_traduit, j.summary),
        summary_traduit: None,
        ..j
    }
}

impl JeuIGDB {
    /// The base-table row this game writes.
    pub fn ligne(&self) -> (r: LigneJeu)
        ensures
            r == ligne_de(*self),
    {
        LigneJeu {
            id: self.id,
            name: self.name.clone(),
            slug: copier_opt_texte(&self.slug),
            name_traduit: copier_opt_texte(&self.name_traduit),
            storyline: copier_opt_texte(&self.storyline),
            storyline_traduit: copier_opt_texte(&self.storyline_traduit),
            summary: copier_opt_texte(&self.summary),
            summary_traduit: copier_opt_texte(&self.summary_traduit),
            first_release_date: self.first_release_date,
            collection: match &self.collection {
                Some(c) => Some(c.id),
                None => None,
            },
            franchise: match &self.franchise {
                Some(f) => Some(f.id),
                None => None,
            },
            category: self.category,
            rating: copier_opt_note(&self.rating),
            rating_count: self.rating_count,
            cover: match &self.cover {
                Some(c) => Some(c.id),
                None => None,
            },
            updated_at: self.updated_at,
        }
    }

    /// Whether the store holds a game row with this id.
    pub fn existe_db(id: u32, db: &BaseDonnees) -> (r: bool)
        ensures
            r == contient_cle(db.jeux@, id),
    {
        existe_dans(&db.jeux, id)
    }

    /// Base-variant read of the whole game: the base row, its single-valued
    /// relations, and every list read back through its join table.
    pub fn charger_db(id: u32, db: &BaseDonnees) -> (r: Option<JeuIGDB>)
        ensures
            match r {
                Some(j) => est_jeu_charge(*db, id, j),
                None => !contient_cle(db.jeux@, id),
            },
    {
        let ligne = match charger_depuis(&db.jeux, id) {
            Some(l) => l,
            None => {
                proof {
                    lemma_trouve_contient(db.jeux@, id);
                }
                return None;
            },
        };
        proof {
            lemma_trouve_contient(db.jeux@, id);
        }
        let genres = charger_plusieurs(&db.genres, &lies_dans(&db.jeux_genres, id));
        let themes = charger_plusieurs(&db.themes, &lies_dans(&db.jeux_themes, id));
        let keywords = charger_plusieurs(&db.mots_cles, &lies_dans(&db.jeux_mots_cles, id));
        let platforms = lies_dans(&db.jeux_plateformes, id);
        let remakes = lies_dans(&db.jeux_remakes, id);
        let remasters = lies_dans(&db.jeux_remasters, id);
        let similar_games = lies_dans(&db.jeux_similaires, id);
        let artworks = charger_plusieurs(&db.illustrations, &lies_dans(&db.jeux_illustrations, id));
        let screenshots = charger_plusieurs(
            &db.captures_ecran,
            &lies_dans(&db.jeux_captures_ecran, id),
        );
        let videos = charger_plusieurs(&db.videos, &lies_dans(&db.jeux_videos, id));
        Some(JeuIGDB {
            id: ligne.id,
            name: ligne.name,
            slug: ligne.slug,
            name_traduit: ligne.name_traduit,
            alternative_names: None,
            storyline: ligne.storyline,
            summary: ligne.summary,
            storyline_traduit: ligne.storyline_traduit,
            summary_traduit: ligne.summary_traduit,
            first_release_date: ligne.first_release_date,
            collection: match ligne.collection {
                Some(c) => charger_depuis(&db.collections, c),
                None => None,
            },
            franchise: match ligne.franchise {
                Some(f) => charger_depuis(&db.franchises, f),
                None => None,
            },
            category: ligne.category,
            genres: liste_ou_rien(genres),
            themes: liste_ou_rien(themes),
            keywords: liste_ou_rien(keywords),
            platforms: liste_ou_rien(platforms),
            remakes: liste_ou_rien(remakes),
            remasters: liste_ou_rien(remasters),
            similar_games: liste_ou_rien(similar_games),
            rating: ligne.rating,
            rating_count: ligne.rating_count,
            cover: match ligne.cover {
                Some(c) => charger_depuis(&db.couvertures, c),
                None => None,
            },
            artworks: liste_ou_rien(artworks),
            screenshots: liste_ou_rien(screenshots),
            videos: liste_ou_rien(videos),
            updated_at: ligne.updated_at,
        })
    }

    /// The read-time translation overlay applied to this game.
    pub fn traduite(self) -> (r: JeuIGDB)
        ensures
            r == jeu_traduite_spec(self),
    {
        JeuIGDB {
            id: self.id,
            name: determiner(self.name_traduit, self.name),
            name_traduit: None,
            slug: self.slug,
            alternative_names: None,
            storyline: determiner_opt(self.storyline_traduit, self.storyline),
            storyline_traduit: None,
            summary: determiner_opt(self.summary_traduit, self.summary),
            summary_traduit: None,
            first_release_date: self.first_release_date,
            collection: self.collection,
            franchise: self.franchise,
            category: self.category,
            genres: self.genres,
            themes: self.themes,
            keywords: self.keywords,
            platforms: self.platforms,
            remakes: self.remakes,
            remasters: self.remasters,
            similar_games: self.similar_games,
            rating: self.rating,
            rating_count: self.rating_count,
            cover: self.cover,
            artworks: self.artworks,
            screenshots: self.screenshots,
            videos: self.videos,
            updated_at: self.updated_at,
        }
    }

    /// Translated read of the whole game: the base read with the name and the
    /// narrative fields overlaid.
    pub fn charger_traduit_db(id: u32, db: &BaseDonnees) -> (r: Option<JeuIGDB>)
        ensures
            match r {
                Some(t) => exists|base: JeuIGDB|
                    est_jeu_charge(*db, id, base) && t == jeu_traduite_spec(base),
                None => !contient_cle(db.jeux@, id),
            },
    {
        match JeuIGDB::charger_db(id, db) {
            Some(j) => {
                let ghost base = j;
                let t = j.traduite();
                proof {
                    assert(est_jeu_charge(*db, id, base) && t == jeu_traduite_spec(base));
                }
                Some(t)
            },
            None => None,
        }
    }

    /// The recursive save: every owned sub-entity saved idempotently, every
    /// join table of this game fully replaced by its current list, and the
    /// base row upserted last, after every referenced row exists. The steps
    /// are not one transaction: each table changes on its own.
    #[verifier::rlimit(80)]
    #[verifier::spinoff_prover]
    pub fn enregistrer_db(&self, db: &mut BaseDonnees)
        ensures
            final(db).franchises@ == enregistre_option(old(db).franchises@, self.franchise),
            final(db).collections@ == enregistre_option(old(db).collections@, self.collection),
            final(db).genres@ == enregistre_tous(old(db).genres@, vue_liste(self.genres)),
            final(db).themes@ == enregistre_tous(old(db).themes@, vue_liste(self.themes)),
            final(db).mots_cles@ == enregistre_tous(old(db).mots_cles@, vue_liste(self.keywords)),
            final(db).couvertures@ == enregistre_option(old(db).couvertures@, self.cover),
            final(db).illustrations@ == enregistre_tous(
                old(db).illustrations@,
                vue_liste(self.artworks),
            ),
            final(db).captures_ecran@ == enregistre_tous(
                old(db).captures_ecran@,
                vue_liste(self.screenshots),
            ),
            final(db).videos@ == enregistre_tous(old(db).videos@, vue_liste(self.videos)),
            final(db).jeux_genres@ == remplace_aretes(
                old(db).jeux_genres@,
                self.id,
                cles_de(vue_liste(self.genres)),
            ),
            final(db).jeux_themes@ == remplace_aretes(
                old(db).jeux_themes@,
                self.id,
                cles_de(vue_liste(self.themes)),
            ),
            final(db).jeux_mots_cles@ == remplace_aretes(
                old(db).jeux_mots_cles@,
                self.id,
                cles_de(vue_liste(self.keywords)),
            ),
            final(db).jeux_plateformes@ == remplace_aretes(
                old(db).jeux_plateformes@,
                self.id,
                vue_liste(self.platforms),
            ),
            final(db).jeux_remakes@ == remplace_aretes(
                old(db).jeux_remakes@,
                self.id,
                vue_liste(self.remakes),
            ),
            final(db).jeux_remasters@ == remplace_aretes(
                old(db).jeux_remasters@,
                self.id,
                vue_liste(self.remasters),
            ),
            final(db).jeux_similaires@ == remplace_aretes(
                old(db).jeux_similaires@,
                self.id,
                vue_liste(self.similar_games),
            ),
            final(db).jeux_illustrations@ == remplace_aretes(
                old(db).jeux_illustrations@,
                self.id,
                cles_de(vue_liste(self.artworks)),
            ),
            final(db).jeux_captures_ecran@ == remplace_aretes(
                old(db).jeux_captures_ecran@,
                self.id,
                cles_de(vue_liste(self.screenshots)),
            ),
            final(db).jeux_videos@ == remplace_aretes(
                old(db).jeux_videos@,
                self.id,
                cles_de(vue_liste(self.videos)),
            ),
            final(db).jeux@ == upsert(old(db).jeux@, ligne_de(*self)),
            (*final(db) == BaseDonnees {
                collections: final(db).collections,
                franchises: final(db).franchises,
                couvertures: final(db).couvertures,
                jeux: final(db).jeux,
                genres: final(db).genres,
                themes: final(db).themes,
                mots_cles: final(db).mots_cles,
                illustrations: final(db).illustrations,
                captures_ecran: final(db).captures_ecran,
                videos: final(db).videos,
                jeux_genres: final(db).jeux_genres,
                jeux_themes: final(db).jeux_themes,
                jeux_mots_cles: final(db).jeux_mots_cles,
                jeux_plateformes: final(db).jeux_plateformes,
                jeux_remakes: final(db).jeux_remakes,
                jeux_remasters: final(db).jeux_remasters,
                jeux_similaires: final(db).jeux_similaires,
                jeux_illustrations: final(db).jeux_illustrations,
                jeux_captures_ecran: final(db).jeux_captures_ecran,
                jeux_videos: final(db).jeux_videos,
                ..*old(db)
            }),
            old(db).bien_formee() ==> final(db).bien_formee(),
    {
        match &self.franchise {
            Some(f) => f.enregistrer_db(db),
            None => {},
        }
        match &self.collection {
            Some(c) => c.enregistrer_db(db),
            None => {},
        }
        match &self.genres {
            Some(v) => enregistrer_plusieurs(&mut db.genres, v),
            None => {},
        }
        match &self.themes {
            Some(v) => enregistrer_plusieurs(&mut db.themes, v),
            None => {},
        }
        match &self.keywords {
            Some(v) => enregistrer_plusieurs(&mut db.mots_cles, v),
            None => {},
        }
        match &self.cover {
            Some(c) => c.enregistrer_db(db),
            None => {},
        }
        match &self.artworks {
            Some(v) => enregistrer_plusieurs(&mut db.illustrations, v),
            None => {},
        }
        match &self.screenshots {
            Some(v) => enregistrer_plusieurs(&mut db.captures_ecran, v),
            None => {},
        }
        match &self.videos {
            Some(v) => enregistrer_plusieurs(&mut db.videos, v),
            None => {},
        }
        let ids_genres = match &self.genres {
            Some(v) => cles_des(v),
            None => Vec::new(),
        };
        let ids_themes = match &self.themes {
            Some(v) => cles_des(v),
            None => Vec::new(),
        };
        let ids_mots_cles = match &self.keywords {
            Some(v) => cles_des(v),
            None => Vec::new(),
        };
        let ids_plateformes = match &self.platforms {
            Some(v) => copier_ids(v),
            None => Vec::new(),
        };
        let ids_remakes = match &self.remakes {
            Some(v) => copier_ids(v),
            None => Vec::new(),
        };
        let ids_remasters = match &self.remasters {
            Some(v) => copier_ids(v),
            None => Vec::new(),
        };
        let ids_similaires = match &self.similar_games {
            Some(v) => copier_ids(v),
            None => Vec::new(),
        };
        let ids_illustrations = match &self.artworks {
            Some(v) => cles_des(v),
            None => Vec::new(),
        };
        let ids_captures = match &self.screenshots {
            Some(v) => cles_des(v),
            None => Vec::new(),
        };
        let ids_videos = match &self.videos {
            Some(v) => cles_des(v),
            None => Vec::new(),
        };
        proof {
            assert(cles_de(Seq::<GenreIGDB>::empty()) =~= Seq::<u32>::empty());
            assert(cles_de(Seq::<ThemeIGDB>::empty()) =~= Seq::<u32>::empty());
            assert(cles_de(Seq::<MotCleIGDB>::empty()) =~= Seq::<u32>::empty());
            assert(cles_de(Seq::<IllustrationIGDB>::empty()) =~= Seq::<u32>::empty());
            assert(cles_de(Seq::<CaptureEcranIGDB>::empty()) =~= Seq::<u32>::empty());
            assert(cles_de(Seq::<VideoIGDB>::empty()) =~= Seq::<u32>::empty());
        }
        remplacer_aretes(&mut db.jeux_genres, self.id, &ids_genres);
        remplacer_aretes(&mut db.jeux_themes, self.id, &ids_themes);
        remplacer_aretes(&mut db.jeux_mots_cles, self.id, &ids_mots_cles);
        remplacer_aretes(&mut db.jeux_plateformes, self.id, &ids_plateformes);
        remplacer_aretes(&mut db.jeux_remakes, self.id, &ids_remakes);
        remplacer_aretes(&mut db.jeux_remasters, self.id, &ids_remasters);
        remplacer_aretes(&mut db.jeux_similaires, self.id, &ids_similaires);
        remplacer_aretes(&mut db.jeux_illustrations, self.id, &ids_illustrations);
        remplacer_aretes(&mut db.jeux_captures_ecran, self.id, &ids_captures);
        remplacer_aretes(&mut db.jeux_videos, self.id, &ids_videos);
        let ligne = self.ligne();
        inserer_ou_remplacer(&mut db.jeux, ligne);
    }

    /// Writes only the translated-field subset of this game's base row; the
    /// already-persisted base metadata stays.
    pub fn traduire_db(&self, db: &mut BaseDonnees)
        ensures
            final(db).jeux@ == traduction_table(old(db).jeux@, ligne_de(*self)),
            (*final(db) == BaseDonnees { jeux: final(db).jeux, ..*old(db) }),
            old(db).bien_formee() ==> final(db).bien_formee(),
    {
        let source = self.ligne();
        appliquer_traduction(&mut db.jeux, &source);
    }
}

// The platform entity: a base row joined with its logo.

/// The base-table row that a platform writes.
pub open spec fn ligne_plateforme_de(p: PlateformeIGDB) -> LignePlateforme {
    LignePlateforme {
        id: p.id,
        name: p.name,
        slug: p.slug,
        name_traduit: p.name_traduit,
        summary: p.summary,
        summary_traduit: p.summary_traduit,
        category: p.category,
        platform_logo: cle_option(p.platform_logo),
        updated_at: p.updated_at,
    }
}

/// The platform under `id`: its base row joined with its logo row.
pub open spec fn plateforme_chargee(db: BaseDonnees, id: u32) -> Option<PlateformeIGDB> {
    match trouve(db.plateformes@, id) {
        Some(l) => Some(PlateformeIGDB {
            id: l.id,
            name: l.name,
            slug: l.slug,
            name_traduit: l.name_traduit,
            summary: l.summary,
            summary_traduit: l.summary_traduit,
            category: l.category,
            platform_logo: match l.platform_logo {
                Some(li) => trouve(db.logos_plateforme@, li),
                None => None,
            },
            updated_at: l.updated_at,
        }),
        None => None,
    }
}

/// The read-time translation overlay of a platform.
pub open spec fn plateforme_traduite_spec(p: PlateformeIGDB) -> PlateformeIGDB {
    PlateformeIGDB {
        name: determiner_spec(p.name_traduit, p.name),
        name_traduit: None,
        summary: determiner_opt_spec(p.summary_traduit, p.summary),
        summary_traduit: None,
        ..p
    }
}

impl PlateformeIGDB {
    /// The base-table row this platform writes.
    pub fn ligne(&self) -> (r: LignePlateforme)
        ensures
            r == ligne_plateforme_de(*self),
    {
        LignePlateforme {
            id: self.id,
            name: self.name.clone(),
            slug: copier_opt_texte(&self.slug),
            name_traduit: copier_opt_texte(&self.name_traduit),
            summary: copier_opt_texte(&self.summary),
            summary_traduit: copier_opt_texte(&self.summary_traduit),
            category: self.category,
            platform_logo: match &self.platform_logo {
                Some(l) => Some(l.id),
                None => None,
            },
            updated_at: self.updated_at,
        }
    }

    /// Whether the store holds a platform row with this id.
    pub fn existe_db(id: u32, db: &BaseDonnees) -> (r: bool)
        ensures
            r == contient_cle(db.plateformes@, id),
    {
        existe_dans(&db.plateformes, id)
    }

    /// Base-variant read: the base row joined with its logo.
    pub fn charger_db(id: u32, db: &BaseDonnees) -> (r: Option<PlateformeIGDB>)
        ensures
            r == plateforme_chargee(*db, id),
    {
        let ligne = match charger_depuis(&db.plateformes, id) {
            Some(l) => l,
            None => {
                return None;
            },
        };
        Some(PlateformeIGDB {
            id: ligne.id,
            name: ligne.name,
            slug: ligne.slug,
            name_traduit: ligne.name_traduit,
            summary: ligne.summary,
            summary_traduit: ligne.summary_traduit,
            category: ligne.category,
            platform_logo: match ligne.platform_logo {
                Some(li) => charger_depuis(&db.logos_plateforme, li),
                None => None,
            },
            updated_at: ligne.updated_at,
        })
    }

    /// The read-time translation overlay applied to this platform.
    pub fn traduite(self) -> (r: PlateformeIGDB)
        ensures
            r == plateforme_traduite_spec(self),
    {
        PlateformeIGDB {
            id: self.id,
            name: determiner(self.name_traduit, self.name),
            name_traduit: None,
            slug: self.slug,
            summary: determiner_opt(self.summary_traduit, self.summary),
            summary_traduit: None,
            category: self.category,
            platform_logo: self.platform_logo,
            updated_at: self.updated_at,
        }
    }

    /// Translated read: the base read with the name and summary overlaid.
    pub fn charger_traduit_db(id: u32, db: &BaseDonnees) -> (r: Option<PlateformeIGDB>)
        ensures
            r == match plateforme_chargee(*db, id) {
                Some(p) => Some(plateforme_traduite_spec(p)),
                None => None,
            },
    {
        match PlateformeIGDB::charger_db(id, db) {
            Some(p) => Some(p.traduite()),
            None => None,
        }
    }

    /// Idempotent save: the logo row first, so the reference resolves, then
    /// the platform row — neither is ever overwritten.
    pub fn enregistrer_db(&self, db: &mut BaseDonnees)
        ensures
            final(db).logos_plateforme@ == enregistre_option(
                old(db).logos_plateforme@,
                self.platform_logo,
            ),
            final(db).plateformes@ == enregistre(
                old(db).plateformes@,
                ligne_plateforme_de(*self),
            ),
            (*final(db) == BaseDonnees {
                logos_plateforme: final(db).logos_plateforme,
                plateformes: final(db).plateformes,
                ..*old(db)
            }),
            old(db).bien_formee() ==> final(db).bien_formee(),
    {
        match &self.platform_logo {
            Some(l) => l.enregistrer_db(db),
            None => {},
        }
        let ligne = self.ligne();
        inserer_si_absent(&mut db.plateformes, ligne);
    }

    /// Writes only the translated-field subset of this platform's base row.
    pub fn traduire_db(&self, db: &mut BaseDonnees)
        ensures
            final(db).plateformes@ == traduction_table(
                old(db).plateformes@,
                ligne_plateforme_de(*self),
            ),
            (*final(db) == BaseDonnees { plateformes: final(db).plateformes, ..*old(db) }),
            old(db).bien_formee() ==> final(db).bien_formee(),
    {
        let source = self.ligne();
        appliquer_traduction(&mut db.plateformes, &source);
    }
}

// The company entity: a base row, a logo, and one join table carrying the
// role the company played for each linked game.

/// Keeps the join rows of other companies.
pub open spec fn garde_autre_entreprise(id: u32) -> spec_fn(AreteEntreprise) -> bool {
    |a: AreteEntreprise| a.entreprise != id
}

/// The join rows linking `id` to each game of `jeux` under one role.
pub open spec fn paires_entreprise(
    id: u32,
    jeux: Seq<u32>,
    developed: bool,
    published: bool,
) -> Seq<AreteEntreprise> {
    jeux.map_values(|j: u32| AreteEntreprise { jeu: j, entreprise: id, developed, published })
}

/// The join table after a full edge replacement for company `id`: its old
/// rows removed, one row per published game, then one per developed game.
pub open spec fn remplace_aretes_entreprise(
    s: Seq<AreteEntreprise>,
    id: u32,
    publies: Seq<u32>,
    developpes: Seq<u32>,
) -> Seq<AreteEntreprise> {
    s.filter(garde_autre_entreprise(id)) + paires_entreprise(id, publies, false, true)
        + paires_entreprise(id, developpes, true, false)
}

/// The games the company `id` developed, read in table order.
pub open spec fn developpes_de(s: Seq<AreteEntreprise>, id: u32) -> Seq<u32>
    decreases s.len(),
{
    if s.len() == 0 {
        Seq::empty()
    } else {
        developpes_de(s.drop_last(), id) + if s.last().entreprise == id && s.last().developed {
            seq![s.last().jeu]
        } else {
            Seq::empty()
        }
    }
}

/// The games the company `id` published, read in table order.
pub open spec fn publies_de(s: Seq<AreteEntreprise>, id: u32) -> Seq<u32>
    decreases s.len(),
{
    if s.len() == 0 {
        Seq::empty()
    } else {
        publies_de(s.drop_last(), id) + if s.last().entreprise == id && s.last().published {
            seq![s.last().jeu]
        } else {
            Seq::empty()
        }
    }
}

/// The base-table row that a company writes.
pub open spec fn ligne_entreprise_de(e: EntrepriseIGDB) -> LigneEntreprise {
    LigneEntreprise {
        id: e.id,
        name: e.name,
        slug: e.slug,
        name_traduit: e.name_traduit,
        description: e.description,
        description_traduit: e.description_traduit,
        parent: e.parent,
        logo: cle_option(e.logo),
        start_date: e.start_date,
        updated_at: e.updated_at,
    }
}

/// A loaded company: its base row, its logo, and its two game lists read out
/// of the join table — both lists always present, possibly empty.
pub open spec fn est_entreprise_chargee(db: BaseDonnees, id: u32, e: EntrepriseIGDB) -> bool {
    match trouve(db.entreprises@, id) {
        Some(l) => {
            &&& e.id == l.id
            &&& e.name == l.name
            &&& e.slug == l.slug
            &&& e.name_traduit == l.name_traduit
            &&& (match e.developed {
                Some(v) => v@ == developpes_de(db.jeux_entreprises@, id),
                None => false,
            })
            &&& (match e.published {
                Some(v) => v@ == publies_de(db.jeux_entreprises@, id),
                None => false,
            })
            &&& e.description == l.description
            &&& e.description_traduit == l.description_traduit
            &&& e.parent == l.parent
            &&& e.logo == (match l.logo {
                Some(li) => trouve(db.logos_entreprise@, li),
                None => None,
            })
            &&& e.start_date == l.start_date
            &&& e.updated_at == l.updated_at
        },
        None => false,
    }
}

/// The read-time translation overlay of a company.
pub open spec fn entreprise_traduite_spec(e: EntrepriseIGDB) -> EntrepriseIGDB {
    EntrepriseIGDB {
        name: determiner_spec(e.name_traduit, e.name),
        name_traduit: None,
        description: determiner_opt_spec(e.description_traduit, e.description),
        description_traduit: None,
        ..e
    }
}

/// Removes every join row of company `id`.
fn supprimer_aretes_entreprise(aretes: &mut Vec<AreteEntreprise>, id: u32)
    ensures
        final(aretes)@ == old(aretes)@.filter(garde_autre_entreprise(id)),
{
    let ghost pred = garde_autre_entreprise(id);
    let mut reste: Vec<AreteEntreprise> = Vec::new();
    let mut i: usize = 0;
    proof {
        reveal(Seq::filter);
        assert(old(aretes)@.subrange(0, 0).filter(pred) =~= Seq::<AreteEntreprise>::empty());
    }
    while i < aretes.len()
        invariant
            pred == garde_autre_entreprise(id),
            i <= aretes@.len(),
            aretes@ == old(aretes)@,
            reste@ == aretes@.subrange(0, i as int).filter(pred),
        decreases aretes@.len() - i,
    {
        proof {
            reveal(Seq::filter);
            let avant = aretes@.subrange(0, i as int);
            let apres = aretes@.subrange(0, i as int + 1);
            assert(apres.drop_last() =~= avant);
            assert(apres.last() == aretes@[i as int]);
            if pred(aretes@[i as int]) {
                assert(apres.filter(pred) == avant.filter(pred).push(aretes@[i as int]));
            } else {
                assert(apres.filter(pred) == avant.filter(pred));
            }
        }
        if aretes[i].entreprise != id {
            let a = aretes[i];
            reste.push(a);
        }
        i += 1;
    }
    proof {
        assert(aretes@.subrange(0, aretes@.len() as int) =~= aretes@);
    }
    *aretes = reste;
}

/// Appends one join row per game of `jeux`, all under one role.
fn inserer_aretes_entreprise(
    aretes: &mut Vec<AreteEntreprise>,
    id: u32,
    jeux: &Vec<u32>,
    developed: bool,
    published: bool,
)
    ensures
        final(aretes)@ == old(aretes)@ + paires_entreprise(id, jeux@, developed, published),
{
    let mut i: usize = 0;
    while i < jeux.len()
        invariant
            i <= jeux@.len(),
            aretes@ == old(aretes)@ + paires_entreprise(
                id,
                jeux@.subrange(0, i as int),
                developed,
                published,
            ),
        decreases jeux@.len() - i,
    {
        proof {
            let avant = jeux@.subrange(0, i as int);
            let apres = jeux@.subrange(0, i as int + 1);
            assert((old(aretes)@ + paires_entreprise(id, avant, developed, published)).push(
                AreteEntreprise { jeu: jeux@[i as int], entreprise: id, developed, published },
            ) =~= old(aretes)@ + paires_entreprise(id, apres, developed, published));
        }
        aretes.push(AreteEntreprise { jeu: jeux[i], entreprise: id, developed, published });
        i += 1;
    }
    proof {
        assert(jeux@.subrange(0, jeux@.len() as int) =~= jeux@);
    }
}

impl EntrepriseIGDB {
    /// The base-table row this company writes.
    pub fn ligne(&self) -> (r: LigneEntreprise)
        ensures
            r == ligne_entreprise_de(*self),
    {
        LigneEntreprise {
            id: self.id,
            name: self.name.clone(),
            slug: copier_opt_texte(&self.slug),
            name_traduit: copier_opt_texte(&self.name_traduit),
            description: copier_opt_texte(&self.description),
            description_traduit: copier_opt_texte(&self.description_traduit),
            parent: self.parent,
            logo: match &self.logo {
                Some(l) => Some(l.id),
                None => None,
            },
            start_date: self.start_date,
            updated_at: self.updated_at,
        }
    }

    /// Whether the store holds a company row with this id.
    pub fn existe_db(id: u32, db: &BaseDonnees) -> (r: bool)
        ensures
            r == contient_cle(db.entreprises@, id),
    {
        existe_dans(&db.entreprises, id)
    }

    /// Base-variant read: the base row, the logo, and the two game lists read
    /// out of the join table.
    pub fn charger_db(id: u32, db: &BaseDonnees) -> (r: Option<EntrepriseIGDB>)
        ensures
            match r {
                Some(e) => est_entreprise_chargee(*db, id, e),
                None => !contient_cle(db.entreprises@, id),
            },
    {
        let ligne = match charger_depuis(&db.entreprises, id) {
            Some(l) => l,
            None => {
                proof {
                    lemma_trouve_contient(db.entreprises@, id);
                }
                return None;
            },
        };
        proof {
            lemma_trouve_contient(db.entreprises@, id);
        }
        let mut developed: Vec<u32> = Vec::new();
        let mut published: Vec<u32> = Vec::new();
        let mut i: usize = 0;
        proof {
            assert(developpes_de(db.jeux_entreprises@.subrange(0, 0), id) =~= Seq::<u32>::empty());
            assert(publies_de(db.jeux_entreprises@.subrange(0, 0), id) =~= Seq::<u32>::empty());
        }
        while i < db.jeux_entreprises.len()
            invariant
                i <= db.jeux_entreprises@.len(),
                developed@ == developpes_de(db.jeux_entreprises@.subrange(0, i as int), id),
                published@ == publies_de(db.jeux_entreprises@.subrange(0, i as int), id),
            decreases db.jeux_entreprises@.len() - i,
        {
            proof {
                let avant = db.jeux_entreprises@.subrange(0, i as int);
                let apres = db.jeux_entreprises@.subrange(0, i as int + 1);
                assert(apres.drop_last() =~= avant);
                assert(apres.last() == db.jeux_entreprises@[i as int]);
                let a = db.jeux_entreprises@[i as int];
                if a.entreprise == id && a.developed {
                    assert(developpes_de(apres, id) =~= developpes_de(avant, id).push(a.jeu));
                } else {
                    assert(developpes_de(apres, id) =~= developpes_de(avant, id));
                }
                if a.entreprise == id && a.published {
                    assert(publies_de(apres, id) =~= publies_de(avant, id).push(a.jeu));
                } else {
                    assert(publies_de(apres, id) =~= publies_de(avant, id));
                }
            }
            let a = db.jeux_entreprises[i];
            if a.entreprise == id {
                if a.developed {
                    developed.push(a.jeu);
                }
                if a.published {
                    published.push(a.jeu);
                }
            }
            i += 1;
        }
        proof {
            assert(db.jeux_entreprises@.subrange(0, db.jeux_entreprises@.len() as int)
                =~= db.jeux_entreprises@);
        }
        Some(EntrepriseIGDB {
            id: ligne.id,
            name: ligne.name,
            slug: ligne.slug,
            name_traduit: ligne.name_traduit,
            developed: Some(developed),
            published: Some(published),
            description: ligne.description,
            description_traduit: ligne.description_traduit,
            parent: ligne.parent,
            logo: match ligne.logo {
                Some(li) => charger_depuis(&db.logos_entreprise, li),
                None => None,
            },
            start_date: ligne.start_date,
            updated_at: ligne.updated_at,
        })
    }

    /// The read-time translation overlay applied to this company.
    pub fn traduite(self) -> (r: EntrepriseIGDB)
        ensures
            r == entreprise_traduite_spec(self),
    {
        EntrepriseIGDB {
            id: self.id,
            name: determiner(self.name_traduit, self.name),
            name_traduit: None,
            slug: self.slug,
            developed: self.developed,
            published: self.published,
            description: determiner_opt(self.description_traduit, self.description),
            description_traduit: None,
            parent: self.parent,
            logo: self.logo,
            start_date: self.start_date,
            updated_at: self.updated_at,
        }
    }

    /// Translated read: the base read with the name and description overlaid.
    pub fn charger_traduit_db(id: u32, db: &BaseDonnees) -> (r: Option<EntrepriseIGDB>)
        ensures
            match r {
                Some(t) => exists|base: EntrepriseIGDB|
                    est_entreprise_chargee(*db, id, base) && t == entreprise_traduite_spec(base),
                None => !contient_cle(db.entreprises@, id),
            },
    {
        match EntrepriseIGDB::charger_db(id, db) {
            Some(e) => {
                let ghost base = e;
                let t = e.traduite();
                proof {
                    assert(est_entreprise_chargee(*db, id, base) && t == entreprise_traduite_spec(
                        base,
                    ));
                }
                Some(t)
            },
            None => None,
        }
    }

    /// The company save, shaped like the game save: the logo first, then the
    /// join table fully replaced — published rows, then developed rows — and
    /// the base row saved last, never overwritten.
    pub fn enregistrer_db(&self, db: &mut BaseDonnees)
        ensures
            final(db).logos_entreprise@ == enregistre_option(old(db).logos_entreprise@, self.logo),
            final(db).jeux_entreprises@ == remplace_aretes_entreprise(
                old(db).jeux_entreprises@,
                self.id,
                vue_liste(self.published),
                vue_liste(self.developed),
            ),
            final(db).entreprises@ == enregistre(
                old(db).entreprises@,
                ligne_entreprise_de(*self),
            ),
            (*final(db) == BaseDonnees {
                logos_entreprise: final(db).logos_entreprise,
                jeux_entreprises: final(db).jeux_entreprises,
                entreprises: final(db).entreprises,
                ..*old(db)
            }),
            old(db).bien_formee() ==> final(db).bien_formee(),
    {
        match &self.logo {
            Some(l) => l.enregistrer_db(db),
            None => {},
        }
        let publies = match &self.published {
            Some(v) => copier_ids(v),
            None => Vec::new(),
        };
        let developpes = match &self.developed {
            Some(v) => copier_ids(v),
            None => Vec::new(),
        };
        supprimer_aretes_entreprise(&mut db.jeux_entreprises, self.id);
        inserer_aretes_entreprise(&mut db.jeux_entreprises, self.id, &publies, false, true);
        inserer_aretes_entreprise(&mut db.jeux_entreprises, self.id, &developpes, true, false);
        proof {
            assert(publies@ =~= vue_liste(self.published));
            assert(developpes@ =~= vue_liste(self.developed));
            assert(db.jeux_entreprises@ =~= remplace_aretes_entreprise(
                old(db).jeux_entreprises@,
                self.id,
                vue_liste(self.published),
                vue_liste(self.developed),
            ));
        }
        let ligne = self.ligne();
        inserer_si_absent(&mut db.entreprises, ligne);
    }

    /// Writes only the translated-field subset of this company's base row.
    pub fn traduire_db(&self, db: &mut BaseDonnees)
        ensures
            final(db).entreprises@ == traduction_table(
                old(db).entreprises@,
                ligne_entreprise_de(*self),
            ),
            (*final(db) == BaseDonnees { entreprises: final(db).entreprises, ..*old(db) }),
            old(db).bien_formee() ==> final(db).bien_formee(),
    {
        let source = self.ligne();
        appliquer_traduction(&mut db.entreprises, &source);
    }
}

// Creation of the store: the reference category codes are seeded, and the
// sentinel game — id 0, the reserved "unknown game" — is present before any
// scan may reference it.

/// The base name of the game category code `i`.
pub open spec fn nom_categorie_jeu(i: int) -> Seq<char> {
    if i == 0 {
        "Main game"@
    } else if i == 1 {
        "DLC addon"@
    } else if i == 2 {
        "Expansion"@
    } else if i == 3 {
        "Bundle"@
    } else if i == 4 {
        "Standalone expansion"@
    } else if i == 5 {
        "Mod"@
    } else if i == 6 {
        "Episode"@
    } else if i == 7 {
        "Season"@
    } else if i == 8 {
        "Remake"@
    } else if i == 9 {
        "Remaster"@
    } else if i == 10 {
        "Expanded game"@
    } else if i == 11 {
        "Port"@
    } else if i == 12 {
        "Fork"@
    } else if i == 13 {
        "Pack"@
    } else {
        "Update"@
    }
}

/// The translated name of the game category code `i`.
pub open spec fn nom_categorie_jeu_traduit(i: int) -> Seq<char> {
    if i == 0 {
        "Jeu principal"@
    } else if i == 1 {
        "DLC"@
    } else if i == 2 {
        "Extension"@
    } else if i == 3 {
        "Offre groupée"@
    } else if i == 4 {
        "Extension indépendante"@
    } else if i == 5 {
        "Mod"@
    } else if i == 6 {
        "Épisode"@
    } else if i == 7 {
        "Saison"@
    } else if i == 8 {
        "Remake"@
    } else if i == 9 {
        "Remaster"@
    } else if i == 10 {
        "Jeu étendu"@
    } else if i == 11 {
        "Portage"@
    } else if i == 12 {
        "Fourche"@
    } else if i == 13 {
        "Paquet"@
    } else {
        "Mise à jour"@
    }
}

/// The base name of the platform category code `i`.
pub open spec fn nom_categorie_plateforme(i: int) -> Seq<char> {
    if i == 1 {
        "Console"@
    } else if i == 2 {
        "Arcade"@
    } else if i == 3 {
        "Platform"@
    } else if i == 4 {
        "Portable console"@
    } else {
        "Computer"@
    }
}

/// The translated name of the platform category code `i`.
pub open spec fn nom_categorie_plateforme_traduit(i: int) -> Seq<char> {
    if i == 1 {
        "Console"@
    } else if i == 2 {
        "Arcade"@
    } else if i == 3 {
        "Plateforme"@
    } else if i == 4 {
        "Console portable"@
    } else {
        "Ordinateur"@
    }
}

/// The seeded row of game category `i`.
pub open spec fn est_categorie_jeu(c: CategorieJeuIGDB, i: int) -> bool {
    &&& c.id == i
    &&& c.name@ == nom_categorie_jeu(i)
    &&& match c.name_traduit {
        Some(t) => t@ == nom_categorie_jeu_traduit(i),
        None => false,
    }
}

/// The seeded row of platform category `i`.
pub open spec fn est_categorie_plateforme(c: CategoriePlateformeIGDB, i: int) -> bool {
    &&& c.id == i
    &&& c.name@ == nom_categorie_plateforme(i)
    &&& match c.name_traduit {
        Some(t) => t@ == nom_categorie_plateforme_traduit(i),
        None => false,
    }
}

/// The sentinel game row: id 0, named Unknown, with no other column set.
pub open spec fn est_ligne_sentinelle(l: LigneJeu) -> bool {
    &&& l.id == 0
    &&& l.name@ == "Unknown"@
    &&& match l.slug {
        Some(s) => s@ == "unknown"@,
        None => false,
    }
    &&& l.name_traduit is None
    &&& l.storyline is None
    &&& l.storyline_traduit is None
    &&& l.summary is None
    &&& l.summary_traduit is None
    &&& l.first_release_date is None
    &&& l.collection is None
    &&& l.franchise is None
    &&& l.category is None
    &&& l.rating is None
    &&& l.rating_count is None
    &&& l.cover is None
    &&& l.updated_at is None
}

impl BaseDonnees {
    /// Creates the store: every table empty but the two seeded category-code
    /// tables and the one sentinel game row, which must exist before any
    /// catalog entry can safely reference it.
    pub fn creer() -> (r: BaseDonnees)
        ensures
            r.bien_formee(),
            r.collections@.len() == 0,
            r.franchises@.len() == 0,
            r.couvertures@.len() == 0,
            r.genres@.len() == 0,
            r.themes@.len() == 0,
            r.mots_cles@.len() == 0,
            r.illustrations@.len() == 0,
            r.captures_ecran@.len() == 0,
            r.videos@.len() == 0,
            r.logos_plateforme@.len() == 0,
            r.plateformes@.len() == 0,
            r.logos_entreprise@.len() == 0,
            r.entreprises@.len() == 0,
            r.jeux_genres@.len() == 0,
            r.jeux_themes@.len() == 0,
            r.jeux_mots_cles@.len() == 0,
            r.jeux_plateformes@.len() == 0,
            r.jeux_remakes@.len() == 0,
            r.jeux_remasters@.len() == 0,
            r.jeux_similaires@.len() == 0,
            r.jeux_illustrations@.len() == 0,
            r.jeux_captures_ecran@.len() == 0,
            r.jeux_videos@.len() == 0,
            r.jeux_entreprises@.len() == 0,
            r.catalogue@.len() == 0,
            r.categories_jeu@.len() == 15,
            forall|i: int| 0 <= i < 15 ==> est_categorie_jeu(#[trigger] r.categories_jeu@[i], i),
            r.categories_plateforme@.len() == 5,
            forall|i: int|
                0 <= i < 5 ==> est_categorie_plateforme(
                    #[trigger] r.categories_plateforme@[i],
                    i + 1,
                ),
            r.jeux@.len() == 1,
            est_ligne_sentinelle(r.jeux@[0]),
            contient_cle(r.jeux@, 0),
    {
        let mut categories_jeu: Vec<CategorieJeuIGDB> = Vec::new();
        categories_jeu.push(CategorieJeuIGDB {
            id: 0,
            name: String::from_str("Main game"),
            name_traduit: Some(String::from_str("Jeu principal")),
        });
        categories_jeu.push(CategorieJeuIGDB {
            id: 1,
            name: String::from_str("DLC addon"),
            name_traduit: Some(String::from_str("DLC")),
        });
        categories_jeu.push(CategorieJeuIGDB {
            id: 2,
            name: String::from_str("Expansion"),
            name_traduit: Some(String::from_str("Extension")),
        });
        categories_jeu.push(CategorieJeuIGDB {
            id: 3,
            name: String::from_str("Bundle"),
            name_traduit: Some(String::from_str("Offre groupée")),
        });
        categories_jeu.push(CategorieJeuIGDB {
            id: 4,
            name: String::from_str("Standalone expansion"),
            name_traduit: Some(String::from_str("Extension indépendante")),
        });
        categories_jeu.push(CategorieJeuIGDB {
            id: 5,
            name: String::from_str("Mod"),
            name_traduit: Some(String::from_str("Mod")),
        });
        categories_jeu.push(CategorieJeuIGDB {
            id: 6,
            name: String::from_str("Episode"),
            name_traduit: Some(String::from_str("Épisode")),
        });
        categories_jeu.push(CategorieJeuIGDB {
            id: 7,
            name: String::from_str("Season"),
            name_traduit: Some(String::from_str("Saison")),
        });
        categories_jeu.push(CategorieJeuIGDB {
            id: 8,
            name: String::from_str("Remake"),
            name_traduit: Some(String::from_str("Remake")),
        });
        categories_jeu.push(CategorieJeuIGDB {
            id: 9,
            name: String::from_str("Remaster"),
            name_traduit: Some(String::from_str("Remaster")),
        });
        categories_jeu.push(CategorieJeuIGDB {
            id: 10,
            name: String::from_str("Expanded game"),
            name_traduit: Some(String::from_str("Jeu étendu")),
        });
        categories_jeu.push(CategorieJeuIGDB {
            id: 11,
            name: String::from_str("Port"),
            name_traduit: Some(String::from_str("Portage")),
        });
        categories_jeu.push(CategorieJeuIGDB {
            id: 12,
            name: String::from_str("Fork"),
            name_traduit: Some(String::from_str("Fourche")),
        });
        categories_jeu.push(CategorieJeuIGDB {
            id: 13,
            name: String::from_str("Pack"),
            name_traduit: Some(String::from_str("Paquet")),
        });
        categories_jeu.push(CategorieJeuIGDB {
            id: 14,
            name: String::from_str("Update"),
            name_traduit: Some(String::from_str("Mise à jour")),
        });
        let mut categories_plateforme: Vec<CategoriePlateformeIGDB> = Vec::new();
        categories_plateforme.push(CategoriePlateformeIGDB {
            id: 1,
            name: String::from_str("Console"),
            name_traduit: Some(String::from_str("Console")),
        });
        categories_plateforme.push(CategoriePlateformeIGDB {
            id: 2,
            name: String::from_str("Arcade"),
            name_traduit: Some(String::from_str("Arcade")),
        });
        categories_plateforme.push(CategoriePlateformeIGDB {
            id: 3,
            name: String::from_str("Platform"),
            name_traduit: Some(String::from_str("Plateforme")),
        });
        categories_plateforme.push(CategoriePlateformeIGDB {
            id: 4,
            name: String::from_str("Portable console"),
            name_traduit: Some(String::from_str("Console portable")),
        });
        categories_plateforme.push(CategoriePlateformeIGDB {
            id: 5,
            name: String::from_str("Computer"),
            name_traduit: Some(String::from_str("Ordinateur")),
        });
        let mut jeux: Vec<LigneJeu> = Vec::new();
        jeux.push(LigneJeu {
            id: 0,
            name: String::from_str("Unknown"),
            slug: Some(String::from_str("unknown")),
            name_traduit: None,
            storyline: None,
            storyline_traduit: None,
            summary: None,
            summary_traduit: None,
            first_release_date: None,
            collection: None,
            franchise: None,
            category: None,
            rating: None,
            rating_count: None,
            cover: None,
            updated_at: None,
        });
        BaseDonnees {
            collections: Vec::new(),
            franchises: Vec::new(),
            categories_jeu,
            couvertures: Vec::new(),
            jeux,
            genres: Vec::new(),
            themes: Vec::new(),
            mots_cles: Vec::new(),
            illustrations: Vec::new(),
            captures_ecran: Vec::new(),
            videos: Vec::new(),
            categories_plateforme,
            logos_plateforme: Vec::new(),
            plateformes: Vec::new(),
            logos_entreprise: Vec::new(),
            entreprises: Vec::new(),
            jeux_genres: Vec::new(),
            jeux_themes: Vec::new(),
            jeux_mots_cles: Vec::new(),
            jeux_plateformes: Vec::new(),
            jeux_remakes: Vec::new(),
            jeux_remasters: Vec::new(),
            jeux_similaires: Vec::new(),
            jeux_illustrations: Vec::new(),
            jeux_captures_ecran: Vec::new(),
            jeux_videos: Vec::new(),
            jeux_entreprises: Vec::new(),
            catalogue: Vec::new(),
        }
    }
}

// The laws of the persistence protocol.

/// A find through a push: pushing a row never disturbs the rows already
/// found, and a key absent before the push is found only at the new row.
pub proof fn lemma_trouve_push<T: CompatibleSQL>(s: Seq<T>, e: T, id: u32)
    ensures
        contient_cle(s, id) ==> trouve(s.push(e), id) == trouve(s, id),
        !contient_cle(s, id) && e.cle() == id ==> trouve(s.push(e), id) == Some(e),
        !contient_cle(s, id) && e.cle() != id ==> trouve(s.push(e), id) is None,
    decreases s.len(),
{
    lemma_trouve_contient(s, id);
    if s.len() == 0 {
        assert(s.push(e)[0] == e);
        if e.cle() != id {
            lemma_trouve_absent(s.push(e), id);
        }
    } else {
        lemma_trouve_push(s.drop_first(), e, id);
        assert(s.push(e)[0] == s[0]);
        assert(s.push(e).drop_first() =~= s.drop_first().push(e));
        if contient_cle(s, id) && s[0].cle() != id {
            let i = choose|i: int| 0 <= i < s.len() && s[i].cle() == id;
            assert(s.drop_first()[i - 1] == s[i]);
        }
        if !contient_cle(s, id) {
            assert(forall|i: int|
                0 <= i < s.drop_first().len() ==> s.drop_first()[i] == s[i + 1]);
        }
    }
}

/// A save is idempotent, and it never overwrites: saving the same entity a
/// second time changes nothing, and every load of an already-present key
/// reads exactly what it read before the save.
pub proof fn loi_enregistrement_idempotent<T: CompatibleSQL>(s: Seq<T>, e: T)
    ensures
        enregistre(enregistre(s, e), e) == enregistre(s, e),
        forall|k: u32|
            contient_cle(s, k) ==> #[trigger] trouve(enregistre(s, e), k) == trouve(s, k),
        trouve(enregistre(enregistre(s, e), e), e.cle()) == trouve(enregistre(s, e), e.cle()),
{
    if !contient_cle(s, e.cle()) {
        assert(s.push(e)[s.len() as int] == e);
        assert(contient_cle(s.push(e), e.cle()));
    }
    assert forall|k: u32| contient_cle(s, k) implies #[trigger] trouve(enregistre(s, e), k)
        == trouve(s, k) by {
        if !contient_cle(s, e.cle()) {
            lemma_trouve_push(s, e, k);
        }
    }
}

/// An idempotent catalog save: writing an entry whose path is already
/// cataloged a second time leaves the catalog as it stands — a duplicate
/// scan of the same path never creates a second entry.
pub proof fn loi_catalogue_idempotent(s: Seq<Jeu>, e: Jeu)
    ensures
        enregistre_chemin(enregistre_chemin(s, e), e) == enregistre_chemin(s, e),
        chemins_uniques(s) ==> chemins_uniques(enregistre_chemin(s, e)),
{
    if !contient_chemin(s, e.chemin@) {
        assert(s.push(e)[s.len() as int] == e);
        assert(contient_chemin(s.push(e), e.chemin@));
    }
}

/// Reading the linked ids distributes over appending join rows.
pub proof fn lemma_lies_de_concat(a: Seq<Arete>, b: Seq<Arete>, jeu: u32)
    ensures
        lies_de(a + b, jeu) == lies_de(a, jeu) + lies_de(b, jeu),
    decreases b.len(),
{
    if b.len() == 0 {
        assert(a + b =~= a);
        assert(lies_de(a, jeu) + lies_de(b, jeu) =~= lies_de(a, jeu));
    } else {
        lemma_lies_de_concat(a, b.drop_last(), jeu);
        assert((a + b).drop_last() =~= a + b.drop_last());
        assert((a + b).last() == b.last());
        if b.last().jeu == jeu {
            assert(lies_de(a + b, jeu) =~= lies_de(a, jeu) + lies_de(b, jeu));
        } else {
            assert(lies_de(a + b, jeu) =~= lies_de(a, jeu) + lies_de(b, jeu));
        }
    }
}

/// A join table holding no row of `jeu` links nothing to it.
pub proof fn lemma_lies_de_absent(s: Seq<Arete>, jeu: u32)
    requires
        forall|i: int| 0 <= i < s.len() ==> s[i].jeu != jeu,
    ensures
        lies_de(s, jeu) == Seq::<u32>::empty(),
    decreases s.len(),
{
    if s.len() > 0 {
        assert(forall|i: int| 0 <= i < s.drop_last().len() ==> s.drop_last()[i].jeu != jeu);
        lemma_lies_de_absent(s.drop_last(), jeu);
        assert(lies_de(s, jeu) =~= Seq::<u32>::empty());
    }
}

/// The fresh rows of one game link exactly its list, in order.
pub proof fn lemma_lies_de_paires(jeu: u32, lies: Seq<u32>)
    ensures
        lies_de(paires_de(jeu, lies), jeu) == lies,
    decreases lies.len(),
{
    let p = paires_de(jeu, lies);
    if lies.len() == 0 {
        assert(lies_de(p, jeu) =~= lies);
    } else {
        assert(p.drop_last() =~= paires_de(jeu, lies.drop_last()));
        assert(p.last() == (Arete { jeu, lie: lies.last() }));
        lemma_lies_de_paires(jeu, lies.drop_last());
        assert(lies_de(p, jeu) =~= lies.drop_last() + seq![lies.last()]);
        assert(lies.drop_last() + seq![lies.last()] =~= lies);
    }
}

/// The edge set of a game is a full replacement, not a merge: after a save,
/// its join table links exactly the members of the current in-memory list —
/// re-saving with a shorter list shrinks the edge set — and the rows of
/// every other game stand untouched.
pub proof fn loi_remplacement_aretes(s: Seq<Arete>, jeu: u32, lies: Seq<u32>)
    ensures
        lies_de(remplace_aretes(s, jeu, lies), jeu) == lies,
        forall|autre: u32|
            autre != jeu ==> #[trigger] lies_de(remplace_aretes(s, jeu, lies), autre) == lies_de(
                s,
                autre,
            ),
{
    let garde = s.filter(garde_autre_jeu(jeu));
    lemma_lies_de_concat(garde, paires_de(jeu, lies), jeu);
    broadcast use vstd::seq_lib::group_seq_properties;

    assert forall|i: int| 0 <= i < garde.len() implies #[trigger] garde[i].jeu != jeu by {
        s.lemma_filter_pred(garde_autre_jeu(jeu), i);
    }
    lemma_lies_de_absent(garde, jeu);
    lemma_lies_de_paires(jeu, lies);
    assert(Seq::<u32>::empty() + lies =~= lies);
    assert forall|autre: u32| autre != jeu implies #[trigger] lies_de(
        remplace_aretes(s, jeu, lies),
        autre,
    ) == lies_de(s, autre) by {
        lemma_lies_de_concat(garde, paires_de(jeu, lies), autre);
        lemma_lies_de_filtre(s, jeu, autre);
        lemma_lies_de_paires_autre(jeu, lies, autre);
        assert(lies_de(garde, autre) + Seq::<u32>::empty() =~= lies_de(garde, autre));
    }
}

/// Filtering out one game's rows keeps every other game's links.
pub proof fn lemma_lies_de_filtre(s: Seq<Arete>, jeu: u32, autre: u32)
    requires
        autre != jeu,
    ensures
        lies_de(s.filter(garde_autre_jeu(jeu)), autre) == lies_de(s, autre),
    decreases s.len(),
{
    reveal(Seq::filter);
    if s.len() > 0 {
        lemma_lies_de_filtre(s.drop_last(), jeu, autre);
        let f = s.drop_last().filter(garde_autre_jeu(jeu));
        if garde_autre_jeu(jeu)(s.last()) {
            assert(s.filter(garde_autre_jeu(jeu)) == f.push(s.last()));
            assert(f.push(s.last()).drop_last() =~= f);
            assert(lies_de(f.push(s.last()), autre) =~= lies_de(s, autre));
        } else {
            assert(s.last().jeu == jeu);
            assert(lies_de(s, autre) =~= lies_de(s.drop_last(), autre));
        }
    }
}

/// The fresh rows of one game link nothing to any other game.
pub proof fn lemma_lies_de_paires_autre(jeu: u32, lies: Seq<u32>, autre: u32)
    requires
        autre != jeu,
    ensures
        lies_de(paires_de(jeu, lies), autre) == Seq::<u32>::empty(),
{
    let p = paires_de(jeu, lies);
    assert(forall|i: int| 0 <= i < p.len() ==> #[trigger] p[i].jeu == jeu);
    lemma_lies_de_absent(p, autre);
}

/// The whole catalog, for a presentation layer: every entry, in store
/// order.
pub fn obtenir_catalogue(db: &BaseDonnees) -> (r: Vec<Jeu>)
    ensures
        r@ == db.catalogue@,
{
    let mut liste: Vec<Jeu> = Vec::new();
    let mut i: usize = 0;
    while i < db.catalogue.len()
        invariant
            i <= db.catalogue@.len(),
            liste@ == db.catalogue@.subrange(0, i as int),
        decreases db.catalogue@.len() - i,
    {
        liste.push(db.catalogue[i].copier());
        i += 1;
    }
    proof {
        assert(db.catalogue@.subrange(0, db.catalogue@.len() as int) =~= db.catalogue@);
    }
    liste
}
} // verus!
