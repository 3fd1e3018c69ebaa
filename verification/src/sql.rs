//! Relational statement generation: SQL literal rendering with quote
//! escaping, and the statements of the persistence protocol, assembled from
//! a table name, a column list and rendered values — every value reaches the
//! statement text through one rendering door.
use vstd::prelude::*;

use crate::interface::cle_option;
use crate::objet::{
    CaptureEcranIGDB, CategorieJeuIGDB, CategoriePlateformeIGDB, CollectionIGDB, CouvertureIGDB,
    EntrepriseIGDB, FranchiseIGDB, GenreIGDB, IllustrationIGDB, Jeu, JeuIGDB, LogoEntrepriseIGDB,
    LogoPlateformeIGDB, MotCleIGDB, Note, PlateformeIGDB, ThemeIGDB, VideoIGDB,
};

verus! {

/// The decimal digit character of `d`.
pub open spec fn chiffre(d: int) -> char {
    if d == 0 {
        '0'
    } else if d == 1 {
        '1'
    } else if d == 2 {
        '2'
    } else if d == 3 {
        '3'
    } else if d == 4 {
        '4'
    } else if d == 5 {
        '5'
    } else if d == 6 {
        '6'
    } else if d == 7 {
        '7'
    } else if d == 8 {
        '8'
    } else {
        '9'
    }
}

/// The decimal text of `n`, most significant digit first, no leading zero.
pub open spec fn chiffres_nat(n: nat) -> Seq<char>
    decreases n,
{
    if n < 10 {
        seq![chiffre(n as int)]
    } else {
        chiffres_nat(n / 10).push(chiffre((n % 10) as int))
    }
}

/// The decimal text of a signed value: a minus sign before the magnitude.
pub open spec fn chiffres_i64(n: int) -> Seq<char> {
    if n >= 0 {
        chiffres_nat(n as nat)
    } else {
        seq!['-'] + chiffres_nat((-n) as nat)
    }
}

/// One decimal digit as text.
fn chiffre_texte(d: u64) -> (r: &'static str)
    requires
        d < 10,
    ensures
        r@ == seq![chiffre(d as int)],
{
    proof {
        reveal_strlit("0");
        reveal_strlit("1");
        reveal_strlit("2");
        reveal_strlit("3");
        reveal_strlit("4");
        reveal_strlit("5");
        reveal_strlit("6");
        reveal_strlit("7");
        reveal_strlit("8");
        reveal_strlit("9");
    }
    match d {
        0 => "0",
        1 => "1",
        2 => "2",
        3 => "3",
        4 => "4",
        5 => "5",
        6 => "6",
        7 => "7",
        8 => "8",
        _ => "9",
    }
}

/// The decimal text of `n`.
pub fn texte_u64(n: u64) -> (r: String)
    ensures
        r@ == chiffres_nat(n as nat),
    decreases n,
{
    if n < 10 {
        String::from_str(chiffre_texte(n))
    } else {
        let mut s = texte_u64(n / 10);
        s.append(chiffre_texte(n % 10));
        s
    }
}

/// The decimal text of `n`.
pub fn texte_u32(n: u32) -> (r: String)
    ensures
        r@ == chiffres_nat(n as nat),
{
    texte_u64(n as u64)
}

/// The decimal text of `n`, signed.
pub fn texte_i64(n: i64) -> (r: String)
    ensures
        r@ == chiffres_i64(n as int),
{
    if n >= 0 {
        texte_u64(n as u64)
    } else {
        let magnitude: u64 = (-(n + 1)) as u64 + 1;
        proof {
            reveal_strlit("-");
        }
        let mut s = String::from_str("-");
        let chiffres = texte_u64(magnitude);
        s.append(chiffres.as_str());
        s
    }
}

/// The text with every single quote doubled, read from the back.
pub open spec fn echappe_sql(s: Seq<char>) -> Seq<char>
    decreases s.len(),
{
    if s.len() == 0 {
        Seq::empty()
    } else {
        echappe_sql(s.drop_last()) + if s.last() == '\'' {
            seq!['\'', '\'']
        } else {
            seq![s.last()]
        }
    }
}

/// A text as one SQL string literal: quoted, with every inner quote doubled,
/// so the value can never escape the literal.
pub open spec fn texte_sql(s: Seq<char>) -> Seq<char> {
    seq!['\''] + echappe_sql(s) + seq!['\'']
}

/// Renders a text as a quoted SQL string literal.
pub fn guillemeter(input: String) -> (r: String)
    ensures
        r@ == texte_sql(input@),
{
    proof {
        reveal_strlit("'");
        reveal_strlit("''");
    }
    let s = input.as_str();
    let longueur = s.unicode_len();
    let mut sortie = String::from_str("'");
    let mut i: usize = 0;
    proof {
        assert(echappe_sql(s@.subrange(0, 0)) =~= Seq::<char>::empty());
        assert(sortie@ =~= seq!['\''] + echappe_sql(s@.subrange(0, 0)));
    }
    while i < longueur
        invariant
            i <= longueur,
            longueur == s@.len(),
            s@ == input@,
            sortie@ == seq!['\''] + echappe_sql(s@.subrange(0, i as int)),
        decreases longueur - i,
    {
        proof {
            let avant = s@.subrange(0, i as int);
            let apres = s@.subrange(0, i as int + 1);
            assert(apres.drop_last() =~= avant);
            assert(apres.last() == s@[i as int]);
        }
        let c = s.get_char(i);
        if c == '\'' {
            sortie.append("''");
            proof {
                reveal_strlit("''");
                assert("''"@ =~= seq!['\'', '\'']);
                assert(sortie@ =~= seq!['\''] + echappe_sql(s@.subrange(0, i as int + 1)));
            }
        } else {
            sortie.append(s.substring_char(i, i + 1));
            proof {
                assert(s@.subrange(i as int, i as int + 1) =~= seq![s@[i as int]]);
                assert(sortie@ =~= seq!['\''] + echappe_sql(s@.subrange(0, i as int + 1)));
            }
        }
        i += 1;
    }
    proof {
        assert(s@.subrange(0, s@.len() as int) =~= s@);
    }
    sortie.append("'");
    proof {
        assert(sortie@ =~= texte_sql(input@));
    }
    sortie
}

/// The text NULL, for an absent optional value.
pub open spec fn nul_sql() -> Seq<char> {
    seq!['N', 'U', 'L', 'L']
}

/// A value rendered as one SQL literal.
pub trait ValeurSQL {
    /// The literal this value renders to.
    spec fn sql(&self) -> Seq<char>;

    fn convertir(&self) -> (r: String)
        ensures
            r@ == self.sql(),
    ;
}

impl ValeurSQL for String {
    open spec fn sql(&self) -> Seq<char> {
        texte_sql(self@)
    }

    fn convertir(&self) -> String {
        guillemeter(self.clone())
    }
}

impl ValeurSQL for u8 {
    open spec fn sql(&self) -> Seq<char> {
        chiffres_nat(*self as nat)
    }

    fn convertir(&self) -> String {
        texte_u64(*self as u64)
    }
}

impl ValeurSQL for u32 {
    open spec fn sql(&self) -> Seq<char> {
        chiffres_nat(*self as nat)
    }

    fn convertir(&self) -> String {
        texte_u32(*self)
    }
}

impl ValeurSQL for i64 {
    open spec fn sql(&self) -> Seq<char> {
        chiffres_i64(*self as int)
    }

    fn convertir(&self) -> String {
        texte_i64(*self)
    }
}

impl ValeurSQL for bool {
    open spec fn sql(&self) -> Seq<char> {
        if *self {
            "TRUE"@
        } else {
            "FALSE"@
        }
    }

    fn convertir(&self) -> String {
        if *self {
            String::from_str("TRUE")
        } else {
            String::from_str("FALSE")
        }
    }
}

impl ValeurSQL for Note {
    /// A well-formed rating text reads as a bare numeric literal.
    open spec fn sql(&self) -> Seq<char> {
        self.texte@
    }

    fn convertir(&self) -> String {
        self.texte.clone()
    }
}

impl<T: ValeurSQL> ValeurSQL for Option<T> {
    open spec fn sql(&self) -> Seq<char> {
        match self {
            Some(valeur) => valeur.sql(),
            None => nul_sql(),
        }
    }

    fn convertir(&self) -> String {
        proof {
            reveal_strlit("NULL");
            assert("NULL"@ =~= nul_sql());
        }
        match self {
            Some(valeur) => valeur.convertir(),
            None => String::from_str("NULL"),
        }
    }
}


/// The separator between listed columns or values.
pub open spec fn separateur() -> Seq<char> {
    seq![',', ' ']
}

/// The parts joined by the separator, in order.
pub open spec fn jointe(parts: Seq<Seq<char>>) -> Seq<char>
    decreases parts.len(),
{
    if parts.len() == 0 {
        Seq::empty()
    } else if parts.len() == 1 {
        parts[0]
    } else {
        jointe(parts.drop_last()) + separateur() + parts.last()
    }
}

/// A column name in its double quotes.
pub open spec fn cite(col: Seq<char>) -> Seq<char> {
    seq!['"'] + col + seq!['"']
}

/// The column names, each in its double quotes.
pub open spec fn citees(cols: Seq<Seq<char>>) -> Seq<Seq<char>> {
    cols.map_values(|c: Seq<char>| cite(c))
}

/// Joins the parts with a comma and a space.
pub fn joindre(parts: &Vec<String>) -> (r: String)
    ensures
        r@ == jointe(parts.deep_view()),
{
    let mut sortie = String::new();
    let mut i: usize = 0;
    proof {
        assert(jointe(parts.deep_view().subrange(0, 0)) =~= Seq::<char>::empty());
    }
    while i < parts.len()
        invariant
            i <= parts@.len(),
            parts.deep_view().len() == parts@.len(),
            forall|j: int|
                0 <= j < parts@.len() ==> parts.deep_view()[j] == parts@[j]@,
            sortie@ == jointe(parts.deep_view().subrange(0, i as int)),
        decreases parts@.len() - i,
    {
        proof {
            reveal_strlit(", ");
            assert(", "@ =~= separateur());
            let avant = parts.deep_view().subrange(0, i as int);
            let apres = parts.deep_view().subrange(0, i as int + 1);
            assert(apres.drop_last() =~= avant);
            assert(apres.last() == parts.deep_view()[i as int]);
        }
        if i > 0 {
            sortie.append(", ");
        }
        sortie.append(parts[i].as_str());
        i += 1;
    }
    proof {
        assert(parts.deep_view().subrange(0, parts.deep_view().len() as int)
            =~= parts.deep_view());
    }
    sortie
}

/// A column name in its double quotes.
pub fn citer(col: &str) -> (r: String)
    ensures
        r@ == cite(col@),
{
    proof {
        reveal_strlit("\"");
        assert("\""@ =~= seq!['"']);
    }
    let mut sortie = String::from_str("\"");
    sortie.append(col);
    sortie.append("\"");
    proof {
        assert(sortie@ =~= cite(col@));
    }
    sortie
}

/// The text of an insert statement.
pub open spec fn insere_spec(table: Seq<char>, cols: Seq<Seq<char>>, vals: Seq<Seq<char>>)
    -> Seq<char> {
    "INSERT INTO "@ + table + " ("@ + jointe(citees(cols)) + ") VALUES ("@ + jointe(vals) + ");"@
}

/// Assembles the insert statement of one row from rendered values.
pub fn commande_inserer(table: &str, colonnes: &Vec<String>, valeurs: &Vec<String>) -> (r: String)
    ensures
        r@ == insere_spec(table@, colonnes.deep_view(), valeurs.deep_view()),
{
    let mut citees_colonnes: Vec<String> = Vec::new();
    let mut i: usize = 0;
    while i < colonnes.len()
        invariant
            i <= colonnes@.len(),
            citees_colonnes.deep_view() == citees(colonnes.deep_view().subrange(0, i as int)),
        decreases colonnes@.len() - i,
    {
        proof {
            assert(citees(colonnes.deep_view().subrange(0, i as int + 1)) =~= citees(
                colonnes.deep_view().subrange(0, i as int),
            ).push(cite(colonnes.deep_view()[i as int])));
        }
        citees_colonnes.push(citer(colonnes[i].as_str()));
        proof {
            assert(citees_colonnes.deep_view() =~= citees(
                colonnes.deep_view().subrange(0, i as int),
            ).push(cite(colonnes.deep_view()[i as int])));
        }
        i += 1;
    }
    proof {
        assert(colonnes.deep_view().subrange(0, colonnes.deep_view().len() as int)
            =~= colonnes.deep_view());
    }
    let mut sortie = String::from_str("INSERT INTO ");
    sortie.append(table);
    sortie.append(" (");
    let jointes = joindre(&citees_colonnes);
    sortie.append(jointes.as_str());
    sortie.append(") VALUES (");
    let valeurs_jointes = joindre(valeurs);
    sortie.append(valeurs_jointes.as_str());
    sortie.append(");");
    sortie
}

/// The text of a whole-row read keyed by one column.
pub open spec fn selectionne_spec(table: Seq<char>, cle: Seq<char>, valeur: Seq<char>)
    -> Seq<char> {
    "SELECT * FROM "@ + table + " WHERE "@ + cite(cle) + " = "@ + valeur + ";"@
}

/// Assembles the whole-row read keyed by one column.
pub fn commande_selectionner(table: &str, cle: &str, valeur: &String) -> (r: String)
    ensures
        r@ == selectionne_spec(table@, cle@, valeur@),
{
    let mut sortie = String::from_str("SELECT * FROM ");
    sortie.append(table);
    sortie.append(" WHERE ");
    let citee = citer(cle);
    sortie.append(citee.as_str());
    sortie.append(" = ");
    sortie.append(valeur.as_str());
    sortie.append(";");
    sortie
}

/// The text of a row count keyed by one column.
pub open spec fn compte_spec(table: Seq<char>, cle: Seq<char>, valeur: Seq<char>) -> Seq<char> {
    "SELECT COUNT(*) AS count FROM "@ + table + " WHERE "@ + cite(cle) + " = "@ + valeur + ";"@
}

/// Assembles the row count keyed by one column.
pub fn commande_compter(table: &str, cle: &str, valeur: &String) -> (r: String)
    ensures
        r@ == compte_spec(table@, cle@, valeur@),
{
    let mut sortie = String::from_str("SELECT COUNT(*) AS count FROM ");
    sortie.append(table);
    sortie.append(" WHERE ");
    let citee = citer(cle);
    sortie.append(citee.as_str());
    sortie.append(" = ");
    sortie.append(valeur.as_str());
    sortie.append(";");
    sortie
}

/// The text of a row removal keyed by one column.
pub open spec fn supprime_spec(table: Seq<char>, cle: Seq<char>, valeur: Seq<char>) -> Seq<char> {
    "DELETE FROM "@ + table + " WHERE "@ + cite(cle) + " = "@ + valeur + ";"@
}

/// Assembles the row removal keyed by one column.
pub fn commande_supprimer(table: &str, cle: &str, valeur: &String) -> (r: String)
    ensures
        r@ == supprime_spec(table@, cle@, valeur@),
{
    let mut sortie = String::from_str("DELETE FROM ");
    sortie.append(table);
    sortie.append(" WHERE ");
    let citee = citer(cle);
    sortie.append(citee.as_str());
    sortie.append(" = ");
    sortie.append(valeur.as_str());
    sortie.append(";");
    sortie
}

/// One column assignment of an update statement.
pub open spec fn affectation(col: Seq<char>, valeur: Seq<char>) -> Seq<char> {
    cite(col) + " = "@ + valeur
}

/// The assignments of an update statement, pairwise.
pub open spec fn affectations(cols: Seq<Seq<char>>, vals: Seq<Seq<char>>) -> Seq<Seq<char>>
    decreases cols.len(),
{
    if cols.len() == 0 || vals.len() == 0 {
        Seq::empty()
    } else {
        affectations(cols.drop_last(), vals.drop_last()).push(
            affectation(cols.last(), vals.last()),
        )
    }
}

/// The text of an update of chosen columns, keyed by one column.
pub open spec fn met_a_jour_spec(
    table: Seq<char>,
    cols: Seq<Seq<char>>,
    vals: Seq<Seq<char>>,
    cle: Seq<char>,
    valeur_cle: Seq<char>,
) -> Seq<char> {
    "UPDATE "@ + table + " SET "@ + jointe(affectations(cols, vals)) + " WHERE "@ + cite(cle)
        + " = "@ + valeur_cle + ";"@
}

/// Assembles the update of chosen columns, keyed by one column.
pub fn commande_mettre_a_jour(
    table: &str,
    colonnes: &Vec<String>,
    valeurs: &Vec<String>,
    cle: &str,
    valeur_cle: &String,
) -> (r: String)
    requires
        colonnes@.len() == valeurs@.len(),
    ensures
        r@ == met_a_jour_spec(
            table@,
            colonnes.deep_view(),
            valeurs.deep_view(),
            cle@,
            valeur_cle@,
        ),
{
    let mut paires: Vec<String> = Vec::new();
    let mut i: usize = 0;
    while i < colonnes.len()
        invariant
            i <= colonnes@.len(),
            colonnes@.len() == valeurs@.len(),
            paires.deep_view() == affectations(
                colonnes.deep_view().subrange(0, i as int),
                valeurs.deep_view().subrange(0, i as int),
            ),
        decreases colonnes@.len() - i,
    {
        proof {
            let ca = colonnes.deep_view().subrange(0, i as int);
            let cb = colonnes.deep_view().subrange(0, i as int + 1);
            let va = valeurs.deep_view().subrange(0, i as int);
            let vb = valeurs.deep_view().subrange(0, i as int + 1);
            assert(cb.drop_last() =~= ca);
            assert(vb.drop_last() =~= va);
            assert(cb.last() == colonnes.deep_view()[i as int]);
            assert(vb.last() == valeurs.deep_view()[i as int]);
        }
        let mut paire = citer(colonnes[i].as_str());
        paire.append(" = ");
        paire.append(valeurs[i].as_str());
        paires.push(paire);
        proof {
            assert(paires.deep_view() =~= affectations(
                colonnes.deep_view().subrange(0, i as int),
                valeurs.deep_view().subrange(0, i as int),
            ).push(affectation(colonnes.deep_view()[i as int], valeurs.deep_view()[i as int])));
        }
        i += 1;
    }
    proof {
        assert(colonnes.deep_view().subrange(0, colonnes.deep_view().len() as int)
            =~= colonnes.deep_view());
        assert(valeurs.deep_view().subrange(0, valeurs.deep_view().len() as int)
            =~= valeurs.deep_view());
    }
    let mut sortie = String::from_str("UPDATE ");
    sortie.append(table);
    sortie.append(" SET ");
    let jointes = joindre(&paires);
    sortie.append(jointes.as_str());
    sortie.append(" WHERE ");
    let citee = citer(cle);
    sortie.append(citee.as_str());
    sortie.append(" = ");
    sortie.append(valeur_cle.as_str());
    sortie.append(";");
    sortie
}

impl CollectionIGDB {
    /// The insert statement of this row.
    pub fn commande_enregistrer(&self) -> (r: String)
        ensures
            r@ == insere_spec(
                "collections"@,
                seq!["id"@, "name"@, "name_traduit"@, "slug"@, "updated_at"@],
                seq![self.id.sql(), self.name.sql(), self.name_traduit.sql(), self.slug.sql(), self.updated_at.sql()],
            ),
    {
        let mut colonnes: Vec<String> = Vec::new();
        colonnes.push(String::from_str("id"));
        colonnes.push(String::from_str("name"));
        colonnes.push(String::from_str("name_traduit"));
        colonnes.push(String::from_str("slug"));
        colonnes.push(String::from_str("updated_at"));
        let mut valeurs: Vec<String> = Vec::new();
        valeurs.push(self.id.convertir());
        valeurs.push(self.name.convertir());
        valeurs.push(self.name_traduit.convertir());
        valeurs.push(self.slug.convertir());
        valeurs.push(self.updated_at.convertir());
        proof {
            assert(colonnes.deep_view() =~= seq!["id"@, "name"@, "name_traduit"@, "slug"@, "updated_at"@]);
            assert(valeurs.deep_view() =~= seq![self.id.sql(), self.name.sql(), self.name_traduit.sql(), self.slug.sql(), self.updated_at.sql()]);
        }
        commande_inserer("collections", &colonnes, &valeurs)
    }

    /// The statement writing only the translated-field subset of the row
    /// sharing this key.
    pub fn commande_traduire(&self) -> (r: String)
        ensures
            r@ == met_a_jour_spec(
                "collections"@,
                seq!["name_traduit"@],
                seq![self.name.sql()],
                "id"@,
                chiffres_nat(self.id as nat),
            ),
    {
        let mut colonnes: Vec<String> = Vec::new();
        colonnes.push(String::from_str("name_traduit"));
        let mut valeurs: Vec<String> = Vec::new();
        valeurs.push(self.name.convertir());
        proof {
            assert(colonnes.deep_view() =~= seq!["name_traduit"@]);
            assert(valeurs.deep_view() =~= seq![self.name.sql()]);
        }
        let cle = texte_u32(self.id);
        commande_mettre_a_jour("collections", &colonnes, &valeurs, "id", &cle)
    }

    /// The whole-row read keyed by `id`.
    pub fn commande_charger(id: u32) -> (r: String)
        ensures
            r@ == selectionne_spec("collections"@, "id"@, chiffres_nat(id as nat)),
    {
        let valeur = texte_u32(id);
        commande_selectionner("collections", "id", &valeur)
    }
}

impl FranchiseIGDB {
    /// The insert statement of this row.
    pub fn commande_enregistrer(&self) -> (r: String)
        ensures
            r@ == insere_spec(
                "franchises"@,
                seq!["id"@, "name"@, "name_traduit"@, "slug"@, "updated_at"@],
                seq![self.id.sql(), self.name.sql(), self.name_traduit.sql(), self.slug.sql(), self.updated_at.sql()],
            ),
    {
        let mut colonnes: Vec<String> = Vec::new();
        colonnes.push(String::from_str("id"));
        colonnes.push(String::from_str("name"));
        colonnes.push(String::from_str("name_traduit"));
        colonnes.push(String::from_str("slug"));
        colonnes.push(String::from_str("updated_at"));
        let mut valeurs: Vec<String> = Vec::new();
        valeurs.push(self.id.convertir());
        valeurs.push(self.name.convertir());
        valeurs.push(self.name_traduit.convertir());
        valeurs.push(self.slug.convertir());
        valeurs.push(self.updated_at.convertir());
        proof {
            assert(colonnes.deep_view() =~= seq!["id"@, "name"@, "name_traduit"@, "slug"@, "updated_at"@]);
            assert(valeurs.deep_view() =~= seq![self.id.sql(), self.name.sql(), self.name_traduit.sql(), self.slug.sql(), self.updated_at.sql()]);
        }
        commande_inserer("franchises", &colonnes, &valeurs)
    }

    /// The statement writing only the translated-field subset of the row
    /// sharing this key.
    pub fn commande_traduire(&self) -> (r: String)
        ensures
            r@ == met_a_jour_spec(
                "franchises"@,
                seq!["name_traduit"@],
                seq![self.name.sql()],
                "id"@,
                chiffres_nat(self.id as nat),
            ),
    {
        let mut colonnes: Vec<String> = Vec::new();
        colonnes.push(String::from_str("name_traduit"));
        let mut valeurs: Vec<String> = Vec::new();
        valeurs.push(self.name.convertir());
        proof {
            assert(colonnes.deep_view() =~= seq!["name_traduit"@]);
            assert(valeurs.deep_view() =~= seq![self.name.sql()]);
        }
        let cle = texte_u32(self.id);
        commande_mettre_a_jour("franchises", &colonnes, &valeurs, "id", &cle)
    }

    /// The whole-row read keyed by `id`.
    pub fn commande_charger(id: u32) -> (r: String)
        ensures
            r@ == selectionne_spec("franchises"@, "id"@, chiffres_nat(id as nat)),
    {
        let valeur = texte_u32(id);
        commande_selectionner("franchises", "id", &valeur)
    }
}

impl GenreIGDB {
    /// The insert statement of this row.
    pub fn commande_enregistrer(&self) -> (r: String)
        ensures
            r@ == insere_spec(
                "genres"@,
                seq!["id"@, "name"@, "name_traduit"@, "slug"@, "updated_at"@],
                seq![self.id.sql(), self.name.sql(), self.name_traduit.sql(), self.slug.sql(), self.updated_at.sql()],
            ),
    {
        let mut colonnes: Vec<String> = Vec::new();
        colonnes.push(String::from_str("id"));
        colonnes.push(String::from_str("name"));
        colonnes.push(String::from_str("name_traduit"));
        colonnes.push(String::from_str("slug"));
        colonnes.push(String::from_str("updated_at"));
        let mut valeurs: Vec<String> = Vec::new();
        valeurs.push(self.id.convertir());
        valeurs.push(self.name.convertir());
        valeurs.push(self.name_traduit.convertir());
        valeurs.push(self.slug.convertir());
        valeurs.push(self.updated_at.convertir());
        proof {
            assert(colonnes.deep_view() =~= seq!["id"@, "name"@, "name_traduit"@, "slug"@, "updated_at"@]);
            assert(valeurs.deep_view() =~= seq![self.id.sql(), self.name.sql(), self.name_traduit.sql(), self.slug.sql(), self.updated_at.sql()]);
        }
        commande_inserer("genres", &colonnes, &valeurs)
    }

    /// The statement writing only the translated-field subset of the row
    /// sharing this key.
    pub fn commande_traduire(&self) -> (r: String)
        ensures
            r@ == met_a_jour_spec(
                "genres"@,
                seq!["name_traduit"@],
                seq![self.name.sql()],
                "id"@,
                chiffres_nat(self.id as nat),
            ),
    {
        let mut colonnes: Vec<String> = Vec::new();
        colonnes.push(String::from_str("name_traduit"));
        let mut valeurs: Vec<String> = Vec::new();
        valeurs.push(self.name.convertir());
        proof {
            assert(colonnes.deep_view() =~= seq!["name_traduit"@]);
            assert(valeurs.deep_view() =~= seq![self.name.sql()]);
        }
        let cle = texte_u32(self.id);
        commande_mettre_a_jour("genres", &colonnes, &valeurs, "id", &cle)
    }

    /// The whole-row read keyed by `id`.
    pub fn commande_charger(id: u32) -> (r: String)
        ensures
            r@ == selectionne_spec("genres"@, "id"@, chiffres_nat(id as nat)),
    {
        let valeur = texte_u32(id);
        commande_selectionner("genres", "id", &valeur)
    }
}

impl ThemeIGDB {
    /// The insert statement of this row.
    pub fn commande_enregistrer(&self) -> (r: String)
        ensures
            r@ == insere_spec(
                "themes"@,
                seq!["id"@, "name"@, "name_traduit"@, "slug"@, "updated_at"@],
                seq![self.id.sql(), self.name.sql(), self.name_traduit.sql(), self.slug.sql(), self.updated_at.sql()],
            ),
    {
        let mut colonnes: Vec<String> = Vec::new();
        colonnes.push(String::from_str("id"));
        colonnes.push(String::from_str("name"));
        colonnes.push(String::from_str("name_traduit"));
        colonnes.push(String::from_str("slug"));
        colonnes.push(String::from_str("updated_at"));
        let mut valeurs: Vec<String> = Vec::new();
        valeurs.push(self.id.convertir());
        valeurs.push(self.name.convertir());
        valeurs.push(self.name_traduit.convertir());
        valeurs.push(self.slug.convertir());
        valeurs.push(self.updated_at.convertir());
        proof {
            assert(colonnes.deep_view() =~= seq!["id"@, "name"@, "name_traduit"@, "slug"@, "updated_at"@]);
            assert(valeurs.deep_view() =~= seq![self.id.sql(), self.name.sql(), self.name_traduit.sql(), self.slug.sql(), self.updated_at.sql()]);
        }
        commande_inserer("themes", &colonnes, &valeurs)
    }

    /// The statement writing only the translated-field subset of the row
    /// sharing this key.
    pub fn commande_traduire(&self) -> (r: String)
        ensures
            r@ == met_a_jour_spec(
                "themes"@,
                seq!["name_traduit"@],
                seq![self.name.sql()],
                "id"@,
                chiffres_nat(self.id as nat),
            ),
    {
        let mut colonnes: Vec<String> = Vec::new();
        colonnes.push(String::from_str("name_traduit"));
        let mut valeurs: Vec<String> = Vec::new();
        valeurs.push(self.name.convertir());
        proof {
            assert(colonnes.deep_view() =~= seq!["name_traduit"@]);
            assert(valeurs.deep_view() =~= seq![self.name.sql()]);
        }
        let cle = texte_u32(self.id);
        commande_mettre_a_jour("themes", &colonnes, &valeurs, "id", &cle)
    }

    /// The whole-row read keyed by `id`.
    pub fn commande_charger(id: u32) -> (r: String)
        ensures
            r@ == selectionne_spec("themes"@, "id"@, chiffres_nat(id as nat)),
    {
        let valeur = texte_u32(id);
        commande_selectionner("themes", "id", &valeur)
    }
}

impl MotCleIGDB {
    /// The insert statement of this row.
    pub fn commande_enregistrer(&self) -> (r: String)
        ensures
            r@ == insere_spec(
                "mots_cles"@,
                seq!["id"@, "name"@, "name_traduit"@, "slug"@, "updated_at"@],
                seq![self.id.sql(), self.name.sql(), self.name_traduit.sql(), self.slug.sql(), self.updated_at.sql()],
            ),
    {
        let mut colonnes: Vec<String> = Vec::new();
        colonnes.push(String::from_str("id"));
        colonnes.push(String::from_str("name"));
        colonnes.push(String::from_str("name_traduit"));
        colonnes.push(String::from_str("slug"));
        colonnes.push(String::from_str("updated_at"));
        let mut valeurs: Vec<String> = Vec::new();
        valeurs.push(self.id.convertir());
        valeurs.push(self.name.convertir());
        valeurs.push(self.name_traduit.convertir());
        valeurs.push(self.slug.convertir());
        valeurs.push(self.updated_at.convertir());
        proof {
            assert(colonnes.deep_view() =~= seq!["id"@, "name"@, "name_traduit"@, "slug"@, "updated_at"@]);
            assert(valeurs.deep_view() =~= seq![self.id.sql(), self.name.sql(), self.name_traduit.sql(), self.slug.sql(), self.updated_at.sql()]);
        }
        commande_inserer("mots_cles", &colonnes, &valeurs)
    }

    /// The statement writing only the translated-field subset of the row
    /// sharing this key.
    pub fn commande_traduire(&self) -> (r: String)
        ensures
            r@ == met_a_jour_spec(
                "mots_cles"@,
                seq!["name_traduit"@],
                seq![self.name.sql()],
                "id"@,
                chiffres_nat(self.id as nat),
            ),
    {
        let mut colonnes: Vec<String> = Vec::new();
        colonnes.push(String::from_str("name_traduit"));
        let mut valeurs: Vec<String> = Vec::new();
        valeurs.push(self.name.convertir());
        proof {
            assert(colonnes.deep_view() =~= seq!["name_traduit"@]);
            assert(valeurs.deep_view() =~= seq![self.name.sql()]);
        }
        let cle = texte_u32(self.id);
        commande_mettre_a_jour("mots_cles", &colonnes, &valeurs, "id", &cle)
    }

    /// The whole-row read keyed by `id`.
    pub fn commande_charger(id: u32) -> (r: String)
        ensures
            r@ == selectionne_spec("mots_cles"@, "id"@, chiffres_nat(id as nat)),
    {
        let valeur = texte_u32(id);
        commande_selectionner("mots_cles", "id", &valeur)
    }
}

impl CouvertureIGDB {
    /// The insert statement of this row.
    pub fn commande_enregistrer(&self) -> (r: String)
        ensures
            r@ == insere_spec(
                "couvertures"@,
                seq!["id"@, "url"@, "width"@, "height"@],
                seq![self.id.sql(), self.url.sql(), self.width.sql(), self.height.sql()],
            ),
    {
        let mut colonnes: Vec<String> = Vec::new();
        colonnes.push(String::from_str("id"));
        colonnes.push(String::from_str("url"));
        colonnes.push(String::from_str("width"));
        colonnes.push(String::from_str("height"));
        let mut valeurs: Vec<String> = Vec::new();
        valeurs.push(self.id.convertir());
        valeurs.push(self.url.convertir());
        valeurs.push(self.width.convertir());
        valeurs.push(self.height.convertir());
        proof {
            assert(colonnes.deep_view() =~= seq!["id"@, "url"@, "width"@, "height"@]);
            assert(valeurs.deep_view() =~= seq![self.id.sql(), self.url.sql(), self.width.sql(), self.height.sql()]);
        }
        commande_inserer("couvertures", &colonnes, &valeurs)
    }

    /// The whole-row read keyed by `id`.
    pub fn commande_charger(id: u32) -> (r: String)
        ensures
            r@ == selectionne_spec("couvertures"@, "id"@, chiffres_nat(id as nat)),
    {
        let valeur = texte_u32(id);
        commande_selectionner("couvertures", "id", &valeur)
    }
}

impl IllustrationIGDB {
    /// The insert statement of this row.
    pub fn commande_enregistrer(&self) -> (r: String)
        ensures
            r@ == insere_spec(
                "illustrations"@,
                seq!["id"@, "url"@, "width"@, "height"@],
                seq![self.id.sql(), self.url.sql(), self.width.sql(), self.height.sql()],
            ),
    {
        let mut colonnes: Vec<String> = Vec::new();
        colonnes.push(String::from_str("id"));
        colonnes.push(String::from_str("url"));
        colonnes.push(String::from_str("width"));
        colonnes.push(String::from_str("height"));
        let mut valeurs: Vec<String> = Vec::new();
        valeurs.push(self.id.convertir());
        valeurs.push(self.url.convertir());
        valeurs.push(self.width.convertir());
        valeurs.push(self.height.convertir());
        proof {
            assert(colonnes.deep_view() =~= seq!["id"@, "url"@, "width"@, "height"@]);
            assert(valeurs.deep_view() =~= seq![self.id.sql(), self.url.sql(), self.width.sql(), self.height.sql()]);
        }
        commande_inserer("illustrations", &colonnes, &valeurs)
    }

    /// The whole-row read keyed by `id`.
    pub fn commande_charger(id: u32) -> (r: String)
        ensures
            r@ == selectionne_spec("illustrations"@, "id"@, chiffres_nat(id as nat)),
    {
        let valeur = texte_u32(id);
        commande_selectionner("illustrations", "id", &valeur)
    }
}

impl CaptureEcranIGDB {
    /// The insert statement of this row.
    pub fn commande_enregistrer(&self) -> (r: String)
        ensures
            r@ == insere_spec(
                "captures_ecran"@,
                seq!["id"@, "url"@, "width"@, "height"@],
                seq![self.id.sql(), self.url.sql(), self.width.sql(), self.height.sql()],
            ),
    {
        let mut colonnes: Vec<String> = Vec::new();
        colonnes.push(String::from_str("id"));
        colonnes.push(String::from_str("url"));
        colonnes.push(String::from_str("width"));
        colonnes.push(String::from_str("height"));
        let mut valeurs: Vec<String> = Vec::new();
        valeurs.push(self.id.convertir());
        valeurs.push(self.url.convertir());
        valeurs.push(self.width.convertir());
        valeurs.push(self.height.convertir());
        proof {
            assert(colonnes.deep_view() =~= seq!["id"@, "url"@, "width"@, "height"@]);
            assert(valeurs.deep_view() =~= seq![self.id.sql(), self.url.sql(), self.width.sql(), self.height.sql()]);
        }
        commande_inserer("captures_ecran", &colonnes, &valeurs)
    }

    /// The whole-row read keyed by `id`.
    pub fn commande_charger(id: u32) -> (r: String)
        ensures
            r@ == selectionne_spec("captures_ecran"@, "id"@, chiffres_nat(id as nat)),
    {
        let valeur = texte_u32(id);
        commande_selectionner("captures_ecran", "id", &valeur)
    }
}

impl LogoPlateformeIGDB {
    /// The insert statement of this row.
    pub fn commande_enregistrer(&self) -> (r: String)
        ensures
            r@ == insere_spec(
                "logos_plateforme"@,
                seq!["id"@, "url"@, "width"@, "height"@],
                seq![self.id.sql(), self.url.sql(), self.width.sql(), self.height.sql()],
            ),
    {
        let mut colonnes: Vec<String> = Vec::new();
        colonnes.push(String::from_str("id"));
        colonnes.push(String::from_str("url"));
        colonnes.push(String::from_str("width"));
        colonnes.push(String::from_str("height"));
        let mut valeurs: Vec<String> = Vec::new();
        valeurs.push(self.id.convertir());
        valeurs.push(self.url.convertir());
        valeurs.push(self.width.convertir());
        valeurs.push(self.height.convertir());
        proof {
            assert(colonnes.deep_view() =~= seq!["id"@, "url"@, "width"@, "height"@]);
            assert(valeurs.deep_view() =~= seq![self.id.sql(), self.url.sql(), self.width.sql(), self.height.sql()]);
        }
        commande_inserer("logos_plateforme", &colonnes, &valeurs)
    }

    /// The whole-row read keyed by `id`.
    pub fn commande_charger(id: u32) -> (r: String)
        ensures
            r@ == selectionne_spec("logos_plateforme"@, "id"@, chiffres_nat(id as nat)),
    {
        let valeur = texte_u32(id);
        commande_selectionner("logos_plateforme", "id", &valeur)
    }
}

impl LogoEntrepriseIGDB {
    /// The insert statement of this row.
    pub fn commande_enregistrer(&self) -> (r: String)
        ensures
            r@ == insere_spec(
                "logos_entreprise"@,
                seq!["id"@, "url"@, "width"@, "height"@],
                seq![self.id.sql(), self.url.sql(), self.width.sql(), self.height.sql()],
            ),
    {
        let mut colonnes: Vec<String> = Vec::new();
        colonnes.push(String::from_str("id"));
        colonnes.push(String::from_str("url"));
        colonnes.push(String::from_str("width"));
        colonnes.push(String::from_str("height"));
        let mut valeurs: Vec<String> = Vec::new();
        valeurs.push(self.id.convertir());
        valeurs.push(self.url.convertir());
        valeurs.push(self.width.convertir());
        valeurs.push(self.height.convertir());
        proof {
            assert(colonnes.deep_view() =~= seq!["id"@, "url"@, "width"@, "height"@]);
            assert(valeurs.deep_view() =~= seq![self.id.sql(), self.url.sql(), self.width.sql(), self.height.sql()]);
        }
        commande_inserer("logos_entreprise", &colonnes, &valeurs)
    }

    /// The whole-row read keyed by `id`.
    pub fn commande_charger(id: u32) -> (r: String)
        ensures
            r@ == selectionne_spec("logos_entreprise"@, "id"@, chiffres_nat(id as nat)),
    {
        let valeur = texte_u32(id);
        commande_selectionner("logos_entreprise", "id", &valeur)
    }
}

impl VideoIGDB {
    /// The insert statement of this row.
    pub fn commande_enregistrer(&self) -> (r: String)
        ensures
            r@ == insere_spec(
                "videos"@,
                seq!["id"@, "name"@, "name_traduit"@, "video_id"@],
                seq![self.id.sql(), self.name.sql(), self.name_traduit.sql(), self.video_id.sql()],
            ),
    {
        let mut colonnes: Vec<String> = Vec::new();
        colonnes.push(String::from_str("id"));
        colonnes.push(String::from_str("name"));
        colonnes.push(String::from_str("name_traduit"));
        colonnes.push(String::from_str("video_id"));
        let mut valeurs: Vec<String> = Vec::new();
        valeurs.push(self.id.convertir());
        valeurs.push(self.name.convertir());
        valeurs.push(self.name_traduit.convertir());
        valeurs.push(self.video_id.convertir());
        proof {
            assert(colonnes.deep_view() =~= seq!["id"@, "name"@, "name_traduit"@, "video_id"@]);
            assert(valeurs.deep_view() =~= seq![self.id.sql(), self.name.sql(), self.name_traduit.sql(), self.video_id.sql()]);
        }
        commande_inserer("videos", &colonnes, &valeurs)
    }

    /// The statement writing only the translated-field subset of the row
    /// sharing this key.
    pub fn commande_traduire(&self) -> (r: String)
        ensures
            r@ == met_a_jour_spec(
                "videos"@,
                seq!["name_traduit"@],
                seq![self.name_traduit.sql()],
                "id"@,
                chiffres_nat(self.id as nat),
            ),
    {
        let mut colonnes: Vec<String> = Vec::new();
        colonnes.push(String::from_str("name_traduit"));
        let mut valeurs: Vec<String> = Vec::new();
        valeurs.push(self.name_traduit.convertir());
        proof {
            assert(colonnes.deep_view() =~= seq!["name_traduit"@]);
            assert(valeurs.deep_view() =~= seq![self.name_traduit.sql()]);
        }
        let cle = texte_u32(self.id);
        commande_mettre_a_jour("videos", &colonnes, &valeurs, "id", &cle)
    }

    /// The whole-row read keyed by `id`.
    pub fn commande_charger(id: u32) -> (r: String)
        ensures
            r@ == selectionne_spec("videos"@, "id"@, chiffres_nat(id as nat)),
    {
        let valeur = texte_u32(id);
        commande_selectionner("videos", "id", &valeur)
    }
}

impl JeuIGDB {
    /// The insert statement of this row.
    pub fn commande_enregistrer(&self) -> (r: String)
        ensures
            r@ == insere_spec(
                "jeux"@,
                seq!["id"@, "name"@, "name_traduit"@, "slug"@, "storyline"@, "storyline_traduit"@, "summary"@, "summary_traduit"@, "first_release_date"@, "collection"@, "franchise"@, "category"@, "rating"@, "rating_count"@, "cover"@, "updated_at"@],
                seq![
                    self.id.sql(),
                    self.name.sql(),
                    self.name_traduit.sql(),
                    self.slug.sql(),
                    self.storyline.sql(),
                    self.storyline_traduit.sql(),
                    self.summary.sql(),
                    self.summary_traduit.sql(),
                    self.first_release_date.sql(),
                    cle_option(self.collection).sql(),
                    cle_option(self.franchise).sql(),
                    self.category.sql(),
                    self.rating.sql(),
                    self.rating_count.sql(),
                    cle_option(self.cover).sql(),
                    self.updated_at.sql(),
                ],
            ),
    {
        let ligne = self.ligne();
        let mut colonnes: Vec<String> = Vec::new();
        colonnes.push(String::from_str("id"));
        colonnes.push(String::from_str("name"));
        colonnes.push(String::from_str("name_traduit"));
        colonnes.push(String::from_str("slug"));
        colonnes.push(String::from_str("storyline"));
        colonnes.push(String::from_str("storyline_traduit"));
        colonnes.push(String::from_str("summary"));
        colonnes.push(String::from_str("summary_traduit"));
        colonnes.push(String::from_str("first_release_date"));
        colonnes.push(String::from_str("collection"));
        colonnes.push(String::from_str("franchise"));
        colonnes.push(String::from_str("category"));
        colonnes.push(String::from_str("rating"));
        colonnes.push(String::from_str("rating_count"));
        colonnes.push(String::from_str("cover"));
        colonnes.push(String::from_str("updated_at"));
        let mut valeurs: Vec<String> = Vec::new();
        valeurs.push(ligne.id.convertir());
        valeurs.push(ligne.name.convertir());
        valeurs.push(ligne.name_traduit.convertir());
        valeurs.push(ligne.slug.convertir());
        valeurs.push(ligne.storyline.convertir());
        valeurs.push(ligne.storyline_traduit.convertir());
        valeurs.push(ligne.summary.convertir());
        valeurs.push(ligne.summary_traduit.convertir());
        valeurs.push(ligne.first_release_date.convertir());
        valeurs.push(ligne.collection.convertir());
        valeurs.push(ligne.franchise.convertir());
        valeurs.push(ligne.category.convertir());
        valeurs.push(ligne.rating.convertir());
        valeurs.push(ligne.rating_count.convertir());
        valeurs.push(ligne.cover.convertir());
        valeurs.push(ligne.updated_at.convertir());
        proof {
            assert(colonnes.deep_view() =~= seq!["id"@, "name"@, "name_traduit"@, "slug"@, "storyline"@, "storyline_traduit"@, "summary"@, "summary_traduit"@, "first_release_date"@, "collection"@, "franchise"@, "category"@, "rating"@, "rating_count"@, "cover"@, "updated_at"@]);
            assert(valeurs.deep_view() =~= seq![
                self.id.sql(),
                    self.name.sql(),
                    self.name_traduit.sql(),
                    self.slug.sql(),
                    self.storyline.sql(),
                    self.storyline_traduit.sql(),
                    self.summary.sql(),
                    self.summary_traduit.sql(),
                    self.first_release_date.sql(),
                    cle_option(self.collection).sql(),
                    cle_option(self.franchise).sql(),
                    self.category.sql(),
                    self.rating.sql(),
                    self.rating_count.sql(),
                    cle_option(self.cover).sql(),
                    self.updated_at.sql(),
            ]);
        }
        commande_inserer("jeux", &colonnes, &valeurs)
    }

    /// The statement writing only the translated-field subset of the row
    /// sharing this key.
    pub fn commande_traduire(&self) -> (r: String)
        ensures
            r@ == met_a_jour_spec(
                "jeux"@,
                seq!["name_traduit"@, "storyline_traduit"@, "summary_traduit"@],
                seq![self.name.sql(), self.storyline.sql(), self.summary.sql()],
                "id"@,
                chiffres_nat(self.id as nat),
            ),
    {
        let mut colonnes: Vec<String> = Vec::new();
        colonnes.push(String::from_str("name_traduit"));
        colonnes.push(String::from_str("storyline_traduit"));
        colonnes.push(String::from_str("summary_traduit"));
        let mut valeurs: Vec<String> = Vec::new();
        valeurs.push(self.name.convertir());
        valeurs.push(self.storyline.convertir());
        valeurs.push(self.summary.convertir());
        proof {
            assert(colonnes.deep_view() =~= seq!["name_traduit"@, "storyline_traduit"@, "summary_traduit"@]);
            assert(valeurs.deep_view() =~= seq![self.name.sql(), self.storyline.sql(), self.summary.sql()]);
        }
        let cle = texte_u32(self.id);
        commande_mettre_a_jour("jeux", &colonnes, &valeurs, "id", &cle)
    }

    /// The whole-row read keyed by `id`.
    pub fn commande_charger(id: u32) -> (r: String)
        ensures
            r@ == selectionne_spec("jeux"@, "id"@, chiffres_nat(id as nat)),
    {
        let valeur = texte_u32(id);
        commande_selectionner("jeux", "id", &valeur)
    }
}

impl PlateformeIGDB {
    /// The insert statement of this row.
    pub fn commande_enregistrer(&self) -> (r: String)
        ensures
            r@ == insere_spec(
                "plateformes"@,
                seq!["id"@, "name"@, "name_traduit"@, "slug"@, "summary"@, "summary_traduit"@, "category"@, "platform_logo"@, "updated_at"@],
                seq![
                    self.id.sql(),
                    self.name.sql(),
                    self.name_traduit.sql(),
                    self.slug.sql(),
                    self.summary.sql(),
                    self.summary_traduit.sql(),
                    self.category.sql(),
                    cle_option(self.platform_logo).sql(),
                    self.updated_at.sql(),
                ],
            ),
    {
        let ligne = self.ligne();
        let mut colonnes: Vec<String> = Vec::new();
        colonnes.push(String::from_str("id"));
        colonnes.push(String::from_str("name"));
        colonnes.push(String::from_str("name_traduit"));
        colonnes.push(String::from_str("slug"));
        colonnes.push(String::from_str("summary"));
        colonnes.push(String::from_str("summary_traduit"));
        colonnes.push(String::from_str("category"));
        colonnes.push(String::from_str("platform_logo"));
        colonnes.push(String::from_str("updated_at"));
        let mut valeurs: Vec<String> = Vec::new();
        valeurs.push(ligne.id.convertir());
        valeurs.push(ligne.name.convertir());
        valeurs.push(ligne.name_traduit.convertir());
        valeurs.push(ligne.slug.convertir());
        valeurs.push(ligne.summary.convertir());
        valeurs.push(ligne.summary_traduit.convertir());
        valeurs.push(ligne.category.convertir());
        valeurs.push(ligne.platform_logo.convertir());
        valeurs.push(ligne.updated_at.convertir());
        proof {
            assert(colonnes.deep_view() =~= seq!["id"@, "name"@, "name_traduit"@, "slug"@, "summary"@, "summary_traduit"@, "category"@, "platform_logo"@, "updated_at"@]);
            assert(valeurs.deep_view() =~= seq![
                self.id.sql(),
                    self.name.sql(),
                    self.name_traduit.sql(),
                    self.slug.sql(),
                    self.summary.sql(),
                    self.summary_traduit.sql(),
                    self.category.sql(),
                    cle_option(self.platform_logo).sql(),
                    self.updated_at.sql(),
            ]);
        }
        commande_inserer("plateformes", &colonnes, &valeurs)
    }

    /// The statement writing only the translated-field subset of the row
    /// sharing this key.
    pub fn commande_traduire(&self) -> (r: String)
        ensures
            r@ == met_a_jour_spec(
                "plateformes"@,
                seq!["name_traduit"@, "summary_traduit"@],
                seq![self.name.sql(), self.summary.sql()],
                "id"@,
                chiffres_nat(self.id as nat),
            ),
    {
        let mut colonnes: Vec<String> = Vec::new();
        colonnes.push(String::from_str("name_traduit"));
        colonnes.push(String::from_str("summary_traduit"));
        let mut valeurs: Vec<String> = Vec::new();
        valeurs.push(self.name.convertir());
        valeurs.push(self.summary.convertir());
        proof {
            assert(colonnes.deep_view() =~= seq!["name_traduit"@, "summary_traduit"@]);
            assert(valeurs.deep_view() =~= seq![self.name.sql(), self.summary.sql()]);
        }
        let cle = texte_u32(self.id);
        commande_mettre_a_jour("plateformes", &colonnes, &valeurs, "id", &cle)
    }

    /// The whole-row read keyed by `id`.
    pub fn commande_charger(id: u32) -> (r: String)
        ensures
            r@ == selectionne_spec("plateformes"@, "id"@, chiffres_nat(id as nat)),
    {
        let valeur = texte_u32(id);
        commande_selectionner("plateformes", "id", &valeur)
    }
}

impl EntrepriseIGDB {
    /// The insert statement of this row.
    pub fn commande_enregistrer(&self) -> (r: String)
        ensures
            r@ == insere_spec(
                "entreprises"@,
                seq!["id"@, "name"@, "name_traduit"@, "slug"@, "description"@, "description_traduit"@, "parent"@, "logo"@, "start_date"@, "updated_at"@],
                seq![
                    self.id.sql(),
                    self.name.sql(),
                    self.name_traduit.sql(),
                    self.slug.sql(),
                    self.description.sql(),
                    self.description_traduit.sql(),
                    self.parent.sql(),
                    cle_option(self.logo).sql(),
                    self.start_date.sql(),
                    self.updated_at.sql(),
                ],
            ),
    {
        let ligne = self.ligne();
        let mut colonnes: Vec<String> = Vec::new();
        colonnes.push(String::from_str("id"));
        colonnes.push(String::from_str("name"));
        colonnes.push(String::from_str("name_traduit"));
        colonnes.push(String::from_str("slug"));
        colonnes.push(String::from_str("description"));
        colonnes.push(String::from_str("description_traduit"));
        colonnes.push(String::from_str("parent"));
        colonnes.push(String::from_str("logo"));
        colonnes.push(String::from_str("start_date"));
        colonnes.push(String::from_str("updated_at"));
        let mut valeurs: Vec<String> = Vec::new();
        valeurs.push(ligne.id.convertir());
        valeurs.push(ligne.name.convertir());
        valeurs.push(ligne.name_traduit.convertir());
        valeurs.push(ligne.slug.convertir());
        valeurs.push(ligne.description.convertir());
        valeurs.push(ligne.description_traduit.convertir());
        valeurs.push(ligne.parent.convertir());
        valeurs.push(ligne.logo.convertir());
        valeurs.push(ligne.start_date.convertir());
        valeurs.push(ligne.updated_at.convertir());
        proof {
            assert(colonnes.deep_view() =~= seq!["id"@, "name"@, "name_traduit"@, "slug"@, "description"@, "description_traduit"@, "parent"@, "logo"@, "start_date"@, "updated_at"@]);
            assert(valeurs.deep_view() =~= seq![
                self.id.sql(),
                    self.name.sql(),
                    self.name_traduit.sql(),
                    self.slug.sql(),
                    self.description.sql(),
                    self.description_traduit.sql(),
                    self.parent.sql(),
                    cle_option(self.logo).sql(),
                    self.start_date.sql(),
                    self.updated_at.sql(),
            ]);
        }
        commande_inserer("entreprises", &colonnes, &valeurs)
    }

    /// The statement writing only the translated-field subset of the row
    /// sharing this key.
    pub fn commande_traduire(&self) -> (r: String)
        ensures
            r@ == met_a_jour_spec(
                "entreprises"@,
                seq!["name_traduit"@, "description_traduit"@],
                seq![self.name.sql(), self.description.sql()],
                "id"@,
                chiffres_nat(self.id as nat),
            ),
    {
        let mut colonnes: Vec<String> = Vec::new();
        colonnes.push(String::from_str("name_traduit"));
        colonnes.push(String::from_str("description_traduit"));
        let mut valeurs: Vec<String> = Vec::new();
        valeurs.push(self.name.convertir());
        valeurs.push(self.description.convertir());
        proof {
            assert(colonnes.deep_view() =~= seq!["name_traduit"@, "description_traduit"@]);
            assert(valeurs.deep_view() =~= seq![self.name.sql(), self.description.sql()]);
        }
        let cle = texte_u32(self.id);
        commande_mettre_a_jour("entreprises", &colonnes, &valeurs, "id", &cle)
    }

    /// The whole-row read keyed by `id`.
    pub fn commande_charger(id: u32) -> (r: String)
        ensures
            r@ == selectionne_spec("entreprises"@, "id"@, chiffres_nat(id as nat)),
    {
        let valeur = texte_u32(id);
        commande_selectionner("entreprises", "id", &valeur)
    }
}

impl Jeu {
    /// The insert statement of this row.
    pub fn commande_enregistrer(&self) -> (r: String)
        ensures
            r@ == insere_spec(
                "catalogue"@,
                seq!["jeu"@, "chemin"@, "nom"@, "langue"@],
                seq![
                    self.jeu.sql(),
                    self.chemin.sql(),
                    self.nom.sql(),
                    self.langue.sql(),
                ],
            ),
    {
        let mut colonnes: Vec<String> = Vec::new();
        colonnes.push(String::from_str("jeu"));
        colonnes.push(String::from_str("chemin"));
        colonnes.push(String::from_str("nom"));
        colonnes.push(String::from_str("langue"));
        let mut valeurs: Vec<String> = Vec::new();
        valeurs.push(self.jeu.convertir());
        valeurs.push(self.chemin.convertir());
        valeurs.push(self.nom.convertir());
        valeurs.push(self.langue.convertir());
        proof {
            assert(colonnes.deep_view() =~= seq!["jeu"@, "chemin"@, "nom"@, "langue"@]);
            assert(valeurs.deep_view() =~= seq![
                self.jeu.sql(),
                    self.chemin.sql(),
                    self.nom.sql(),
                    self.langue.sql(),
            ]);
        }
        commande_inserer("catalogue", &colonnes, &valeurs)
    }

    /// The whole-row read of a catalog entry, keyed by its path.
    pub fn commande_charger(chemin: &String) -> (r: String)
        ensures
            r@ == selectionne_spec("catalogue"@, "chemin"@, texte_sql(chemin@)),
    {
        let valeur = guillemeter(chemin.clone());
        commande_selectionner("catalogue", "chemin", &valeur)
    }
}

impl CategorieJeuIGDB {
    /// The whole-row read keyed by `id`.
    pub fn commande_charger(id: u32) -> (r: String)
        ensures
            r@ == selectionne_spec("categories_jeu"@, "id"@, chiffres_nat(id as nat)),
    {
        let valeur = texte_u32(id);
        commande_selectionner("categories_jeu", "id", &valeur)
    }
}

impl CategoriePlateformeIGDB {
    /// The whole-row read keyed by `id`.
    pub fn commande_charger(id: u32) -> (r: String)
        ensures
            r@ == selectionne_spec("categories_plateforme"@, "id"@, chiffres_nat(id as nat)),
    {
        let valeur = texte_u32(id);
        commande_selectionner("categories_plateforme", "id", &valeur)
    }
}

impl crate::interface::LigneJeu {
    /// The insert statement of this row.
    pub fn commande_enregistrer(&self) -> (r: String)
        ensures
            r@ == insere_spec(
                "jeux"@,
                seq!["id"@, "name"@, "name_traduit"@, "slug"@, "storyline"@, "storyline_traduit"@, "summary"@, "summary_traduit"@, "first_release_date"@, "collection"@, "franchise"@, "category"@, "rating"@, "rating_count"@, "cover"@, "updated_at"@],
                seq![
                    self.id.sql(),
                    self.name.sql(),
                    self.name_traduit.sql(),
                    self.slug.sql(),
                    self.storyline.sql(),
                    self.storyline_traduit.sql(),
                    self.summary.sql(),
                    self.summary_traduit.sql(),
                    self.first_release_date.sql(),
                    self.collection.sql(),
                    self.franchise.sql(),
                    self.category.sql(),
                    self.rating.sql(),
                    self.rating_count.sql(),
                    self.cover.sql(),
                    self.updated_at.sql(),
                ],
            ),
    {
        let mut colonnes: Vec<String> = Vec::new();
        colonnes.push(String::from_str("id"));
        colonnes.push(String::from_str("name"));
        colonnes.push(String::from_str("name_traduit"));
        colonnes.push(String::from_str("slug"));
        colonnes.push(String::from_str("storyline"));
        colonnes.push(String::from_str("storyline_traduit"));
        colonnes.push(String::from_str("summary"));
        colonnes.push(String::from_str("summary_traduit"));
        colonnes.push(String::from_str("first_release_date"));
        colonnes.push(String::from_str("collection"));
        colonnes.push(String::from_str("franchise"));
        colonnes.push(String::from_str("category"));
        colonnes.push(String::from_str("rating"));
        colonnes.push(String::from_str("rating_count"));
        colonnes.push(String::from_str("cover"));
        colonnes.push(String::from_str("updated_at"));
        let mut valeurs: Vec<String> = Vec::new();
        valeurs.push(self.id.convertir());
        valeurs.push(self.name.convertir());
        valeurs.push(self.name_traduit.convertir());
        valeurs.push(self.slug.convertir());
        valeurs.push(self.storyline.convertir());
        valeurs.push(self.storyline_traduit.convertir());
        valeurs.push(self.summary.convertir());
        valeurs.push(self.summary_traduit.convertir());
        valeurs.push(self.first_release_date.convertir());
        valeurs.push(self.collection.convertir());
        valeurs.push(self.franchise.convertir());
        valeurs.push(self.category.convertir());
        valeurs.push(self.rating.convertir());
        valeurs.push(self.rating_count.convertir());
        valeurs.push(self.cover.convertir());
        valeurs.push(self.updated_at.convertir());
        proof {
            assert(colonnes.deep_view() =~= seq!["id"@, "name"@, "name_traduit"@, "slug"@, "storyline"@, "storyline_traduit"@, "summary"@, "summary_traduit"@, "first_release_date"@, "collection"@, "franchise"@, "category"@, "rating"@, "rating_count"@, "cover"@, "updated_at"@]);
            assert(valeurs.deep_view() =~= seq![
                self.id.sql(),
                    self.name.sql(),
                    self.name_traduit.sql(),
                    self.slug.sql(),
                    self.storyline.sql(),
                    self.storyline_traduit.sql(),
                    self.summary.sql(),
                    self.summary_traduit.sql(),
                    self.first_release_date.sql(),
                    self.collection.sql(),
                    self.franchise.sql(),
                    self.category.sql(),
                    self.rating.sql(),
                    self.rating_count.sql(),
                    self.cover.sql(),
                    self.updated_at.sql(),
            ]);
        }
        commande_inserer("jeux", &colonnes, &valeurs)
    }
}

/// The text of the joined catalog view a presentation layer filters: every
/// entry beside its game row, kept by the caller's filter expression.
pub open spec fn selection_catalogue_spec(filtre: Seq<char>) -> Seq<char> {
    "SELECT * FROM catalogue LEFT JOIN jeux ON catalogue.jeu = jeux.id WHERE "@ + filtre + ";"@
}

/// Assembles the filtered catalog view over joined game fields.
pub fn commande_jeux_par(filtre: &str) -> (r: String)
    ensures
        r@ == selection_catalogue_spec(filtre@),
{
    let mut sortie = String::from_str(
        "SELECT * FROM catalogue LEFT JOIN jeux ON catalogue.jeu = jeux.id WHERE ",
    );
    sortie.append(filtre);
    sortie.append(";");
    sortie
}
} // verus!
