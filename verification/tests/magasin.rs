use ludotheque::interface::{Arete, BaseDonnees, CompatibleSQL, LigneJeu};
use ludotheque::objet::{CollectionIGDB, GenreIGDB, Jeu, JeuIGDB, Note};

fn jeu_nu(id: u32, name: &str) -> JeuIGDB {
    JeuIGDB {
        id,
        name: String::from(name),
        slug: None,
        name_traduit: None,
        alternative_names: None,
        storyline: None,
        summary: None,
        storyline_traduit: None,
        summary_traduit: None,
        first_release_date: None,
        collection: None,
        franchise: None,
        category: None,
        genres: None,
        themes: None,
        keywords: None,
        platforms: None,
        remakes: None,
        remasters: None,
        similar_games: None,
        rating: None,
        rating_count: None,
        cover: None,
        artworks: None,
        screenshots: None,
        videos: None,
        updated_at: None,
    }
}

fn genre(id: u32, name: &str) -> GenreIGDB {
    GenreIGDB {
        id,
        name: String::from(name),
        slug: None,
        name_traduit: None,
        updated_at: None,
    }
}

fn aretes_de(table: &Vec<Arete>, jeu: u32) -> Vec<u32> {
    table.iter().filter(|a| a.jeu == jeu).map(|a| a.lie).collect()
}

#[test]
fn creation_seme_la_sentinelle() {
    let db = BaseDonnees::creer();
    assert_eq!(db.jeux.len(), 1);
    assert_eq!(db.jeux[0].id, 0);
    assert_eq!(db.jeux[0].name, "Unknown");
    assert_eq!(db.jeux[0].slug.as_deref(), Some("unknown"));
    assert_eq!(db.categories_jeu.len(), 15);
    assert_eq!(db.categories_jeu[0].name, "Main game");
    assert_eq!(db.categories_jeu[0].name_traduit.as_deref(), Some("Jeu principal"));
    assert_eq!(db.categories_plateforme.len(), 5);
    assert_eq!(db.categories_plateforme[4].name_traduit.as_deref(), Some("Ordinateur"));
    assert!(db.catalogue.is_empty());
}

#[test]
fn enregistrement_idempotent_sans_ecrasement() {
    // saving the same key twice neither duplicates nor overwrites
    let mut db = BaseDonnees::creer();
    let premiere = CollectionIGDB {
        id: 7,
        name: String::from("Saga"),
        slug: Some(String::from("saga")),
        name_traduit: None,
        updated_at: Some(10),
    };
    premiere.enregistrer_db(&mut db);
    let rivale = CollectionIGDB {
        id: 7,
        name: String::from("Autre"),
        slug: None,
        name_traduit: None,
        updated_at: None,
    };
    rivale.enregistrer_db(&mut db);
    assert_eq!(db.collections.len(), 1);
    let lue = CollectionIGDB::charger_db(7, &db).unwrap();
    assert_eq!(lue.name, "Saga");
    assert_eq!(lue.updated_at, Some(10));
}

#[test]
fn resauvegarde_remplace_les_aretes() {
    // the edge set is a full replacement, not a merge
    let mut db = BaseDonnees::creer();
    let mut jeu = jeu_nu(42, "Epopee");
    jeu.genres = Some(vec![genre(1, "Aventure"), genre(2, "Action")]);
    jeu.enregistrer_db(&mut db);
    assert_eq!(aretes_de(&db.jeux_genres, 42), vec![1, 2]);
    assert_eq!(db.genres.len(), 2);

    let mut plus_court = jeu_nu(42, "Epopee");
    plus_court.genres = Some(vec![genre(2, "Action")]);
    plus_court.enregistrer_db(&mut db);
    assert_eq!(aretes_de(&db.jeux_genres, 42), vec![2]);
    // lookup rows persisted as side effects are never deleted by a save
    assert_eq!(db.genres.len(), 2);
}

#[test]
fn les_aretes_des_autres_jeux_restent() {
    let mut db = BaseDonnees::creer();
    let mut a = jeu_nu(1, "Premier");
    a.platforms = Some(vec![10, 11]);
    a.enregistrer_db(&mut db);
    let mut b = jeu_nu(2, "Second");
    b.platforms = Some(vec![12]);
    b.enregistrer_db(&mut db);
    assert_eq!(aretes_de(&db.jeux_plateformes, 1), vec![10, 11]);
    assert_eq!(aretes_de(&db.jeux_plateformes, 2), vec![12]);
}

#[test]
fn lecture_traduite_prefere_la_traduction() {
    // each translatable field replaced when a translation stands,
    // left unchanged when none does.
    let mut db = BaseDonnees::creer();
    let avec = CollectionIGDB {
        id: 1,
        name: String::from("Saga"),
        slug: Some(String::from("saga")),
        name_traduit: Some(String::from("Sage")),
        updated_at: Some(3),
    };
    avec.enregistrer_db(&mut db);
    let sans = CollectionIGDB {
        id: 2,
        name: String::from("Suite"),
        slug: None,
        name_traduit: None,
        updated_at: None,
    };
    sans.enregistrer_db(&mut db);
    let t1 = CollectionIGDB::charger_traduit_db(1, &db).unwrap();
    assert_eq!(t1.name, "Sage");
    assert_eq!(t1.name_traduit, None);
    assert_eq!(t1.slug.as_deref(), Some("saga"));
    let t2 = CollectionIGDB::charger_traduit_db(2, &db).unwrap();
    assert_eq!(t2.name, "Suite");
    assert_eq!(t2.name_traduit, None);
}

#[test]
fn traduire_ecrit_le_sous_ensemble_traduit() {
    let mut db = BaseDonnees::creer();
    let mut jeu = jeu_nu(5, "Plain");
    jeu.summary = Some(String::from("An old tale."));
    jeu.enregistrer_db(&mut db);
    let mut traduit = jeu_nu(5, "Conte");
    traduit.summary = Some(String::from("Un vieux conte."));
    traduit.traduire_db(&mut db);
    let ligne: &LigneJeu = db.jeux.iter().find(|l| l.id == 5).unwrap();
    assert_eq!(ligne.name, "Plain");
    assert_eq!(ligne.name_traduit.as_deref(), Some("Conte"));
    assert_eq!(ligne.summary.as_deref(), Some("An old tale."));
    assert_eq!(ligne.summary_traduit.as_deref(), Some("Un vieux conte."));
    let relu = JeuIGDB::charger_traduit_db(5, &db).unwrap();
    assert_eq!(relu.name, "Conte");
    assert_eq!(relu.summary.as_deref(), Some("Un vieux conte."));
}

#[test]
fn chargement_reconstruit_le_graphe() {
    let mut db = BaseDonnees::creer();
    let mut jeu = jeu_nu(9, "Complet");
    jeu.collection = Some(CollectionIGDB {
        id: 3,
        name: String::from("Saga"),
        slug: None,
        name_traduit: None,
        updated_at: None,
    });
    jeu.genres = Some(vec![genre(1, "Aventure")]);
    jeu.remakes = Some(vec![77]);
    jeu.rating = Some(Note::nouvelle(String::from("81.5")).unwrap());
    jeu.enregistrer_db(&mut db);
    let relu = JeuIGDB::charger_db(9, &db).unwrap();
    assert_eq!(relu.name, "Complet");
    assert_eq!(relu.collection.as_ref().unwrap().id, 3);
    assert_eq!(relu.genres.as_ref().unwrap().len(), 1);
    assert_eq!(relu.genres.as_ref().unwrap()[0].name, "Aventure");
    assert_eq!(relu.remakes, Some(vec![77]));
    assert_eq!(relu.themes, None);
    assert_eq!(relu.rating.unwrap().texte, "81.5");
}

#[test]
fn catalogue_chemin_unique() {
    // a duplicate save of the same path never creates a second entry
    let mut db = BaseDonnees::creer();
    let entree = Jeu {
        jeu: Some(1),
        chemin: String::from("/jeux/a.rom"),
        nom: String::from("A"),
        langue: String::new(),
    };
    entree.enregistrer_db(&mut db);
    let doublon = Jeu {
        jeu: Some(2),
        chemin: String::from("/jeux/a.rom"),
        nom: String::from("B"),
        langue: String::from("FR"),
    };
    doublon.enregistrer_db(&mut db);
    assert_eq!(db.catalogue.len(), 1);
    assert_eq!(db.catalogue[0].jeu, Some(1));
    assert_eq!(db.catalogue[0].nom, "A");
}

#[test]
fn note_accepte_le_decimal_et_rejette_le_reste() {
    assert!(Note::nouvelle(String::from("81")).is_some());
    assert!(Note::nouvelle(String::from("81.5")).is_some());
    assert!(Note::nouvelle(String::from("")).is_none());
    assert!(Note::nouvelle(String::from("8.1.5")).is_none());
    assert!(Note::nouvelle(String::from(".5")).is_none());
    assert!(Note::nouvelle(String::from("5.")).is_none());
    assert!(Note::nouvelle(String::from("5'; DROP")).is_none());
}
