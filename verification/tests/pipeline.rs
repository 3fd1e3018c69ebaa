use ludotheque::interface::BaseDonnees;
use ludotheque::objet::{Jeu, JeuIGDB};
use ludotheque::scan::{
    achever_identification, extensions_valables, fini_par, majuscule, nettoyer_catalogue,
    premier_resultat, preparer_identification, trouver_jeux, Noeud, Resolution,
};
use ludotheque::config::{config_par_defaut, Emulateur, LudothequeConfig};

fn jeu_nu(id: u32, name: &str) -> JeuIGDB {
    JeuIGDB {
        id,
        name: String::from(name),
        slug: None,
        name_traduit: None,
        alternative_names: None,
        storyline: None,
        summary: None,
        storyline_traduit: None,
        summary_traduit: None,
        first_release_date: None,
        collection: None,
        franchise: None,
        category: None,
        genres: None,
        themes: None,
        keywords: None,
        platforms: None,
        remakes: None,
        remasters: None,
        similar_games: None,
        rating: None,
        rating_count: None,
        cover: None,
        artworks: None,
        screenshots: None,
        videos: None,
        updated_at: None,
    }
}

#[test]
fn nettoyage_retire_les_chemins_disparus() {
    // an entry is removed exactly when its path is no longer present
    let mut db = BaseDonnees::creer();
    for (chemin, id) in [("/jeux/a.rom", 1), ("/jeux/b.rom", 2), ("/jeux/c.rom", 3)] {
        Jeu {
            jeu: Some(id),
            chemin: String::from(chemin),
            nom: String::from("x"),
            langue: String::new(),
        }
        .enregistrer_db(&mut db);
    }
    let presents = vec![String::from("/jeux/a.rom"), String::from("/jeux/c.rom")];
    nettoyer_catalogue(&mut db, &presents);
    let restants: Vec<&str> = db.catalogue.iter().map(|j| j.chemin.as_str()).collect();
    assert_eq!(restants, vec!["/jeux/a.rom", "/jeux/c.rom"]);
}

#[test]
fn scan_bout_en_bout_nouveau_fichier() {
    // one new file without bracket metadata, one remote match: exactly
    // one new entry linked to that game, named after it
    let mut db = BaseDonnees::creer();
    let chemin = String::from("/jeux/Mario.rom");
    let preparation = preparer_identification(&chemin, &db);
    let titre = preparation.titre.clone();
    assert_eq!(titre, "Mario");
    match &preparation.resolution {
        Resolution::RequeteParTitre(nom) => assert_eq!(nom, "Mario"),
        autre => panic!("resolution inattendue: {:?}", autre),
    }
    // the remote collaborator answers with exactly one game
    let reponse = vec![jeu_nu(42, "Super Mario Bros.")];
    let jeu = premier_resultat(&reponse).expect("un resultat");
    achever_identification(&mut db, &chemin, &titre, &preparation.langue, jeu, None);
    assert_eq!(db.catalogue.len(), 1);
    assert_eq!(db.catalogue[0].chemin, "/jeux/Mario.rom");
    assert_eq!(db.catalogue[0].jeu, Some(42));
    assert_eq!(db.catalogue[0].nom, "Super Mario Bros.");
    assert_eq!(db.catalogue[0].langue, "");
    assert!(db.jeux.iter().any(|l| l.id == 42));
}

#[test]
fn rescan_court_circuite_par_le_cache() {
    // a path already cataloged against a game the store holds ends the
    // pipeline before any further work.
    let mut db = BaseDonnees::creer();
    let chemin = String::from("/jeux/Mario.rom");
    jeu_nu(42, "Super Mario Bros.").enregistrer_db(&mut db);
    Jeu {
        jeu: Some(42),
        chemin: chemin.clone(),
        nom: String::from("Super Mario Bros."),
        langue: String::new(),
    }
    .enregistrer_db(&mut db);
    let preparation = preparer_identification(&chemin, &db);
    assert!(matches!(preparation.resolution, Resolution::DejaCatalogue));
}

#[test]
fn identifiant_explicite_et_sentinelle() {
    let db = BaseDonnees::creer();
    let par_id = preparer_identification(&String::from("/jeux/Zelda [106, FR].zip"), &db);
    match par_id.resolution {
        Resolution::RequeteParId(id) => assert_eq!(id, 106),
        autre => panic!("resolution inattendue: {:?}", autre),
    }
    assert_eq!(par_id.langue.as_deref(), Some("FR"));
    let sentinelle = preparer_identification(&String::from("/jeux/Unknown [0].gba"), &db);
    assert!(matches!(sentinelle.resolution, Resolution::Sentinelle));
}

#[test]
fn entree_sentinelle_porte_le_titre() {
    let mut db = BaseDonnees::creer();
    let chemin = String::from("/jeux/Unknown [0].gba");
    let preparation = preparer_identification(&chemin, &db);
    let titre = preparation.titre.clone();
    assert_eq!(titre, "Unknown");
    // id 0: the pre-seeded sentinel game is loaded locally, no remote call
    let sentinelle = JeuIGDB::charger_db(0, &db).expect("la sentinelle");
    achever_identification(&mut db, &chemin, &titre, &preparation.langue, &sentinelle, None);
    assert_eq!(db.catalogue.len(), 1);
    assert_eq!(db.catalogue[0].jeu, Some(0));
    assert_eq!(db.catalogue[0].nom, "Unknown");
}

#[test]
fn traduction_prefere_le_nom_traduit() {
    let mut db = BaseDonnees::creer();
    let chemin = String::from("/jeux/Conte [7, fr].rom");
    let preparation = preparer_identification(&chemin, &db);
    let titre = preparation.titre.clone();
    let jeu = jeu_nu(7, "Tale");
    let traduction = jeu_nu(7, "Conte");
    achever_identification(
        &mut db,
        &chemin,
        &titre,
        &preparation.langue,
        &jeu,
        Some(&traduction),
    );
    assert_eq!(db.catalogue[0].nom, "Conte");
    assert_eq!(db.catalogue[0].langue, "FR");
    let ligne = db.jeux.iter().find(|l| l.id == 7).unwrap();
    assert_eq!(ligne.name, "Tale");
    assert_eq!(ligne.name_traduit.as_deref(), Some("Conte"));
}

#[test]
fn la_marche_respecte_profondeur_et_extensions() {
    let arbre = vec![
        Noeud {
            chemin: String::from("/jeux/nes"),
            est_dossier: true,
            enfants: vec![
                Noeud {
                    chemin: String::from("/jeux/nes/mario.nes"),
                    est_dossier: false,
                    enfants: vec![],
                },
                Noeud {
                    chemin: String::from("/jeux/nes/notes.txt"),
                    est_dossier: false,
                    enfants: vec![],
                },
                Noeud {
                    chemin: String::from("/jeux/nes/trop"),
                    est_dossier: true,
                    enfants: vec![Noeud {
                        chemin: String::from("/jeux/nes/trop/cache.nes"),
                        est_dossier: false,
                        enfants: vec![],
                    }],
                },
            ],
        },
        Noeud {
            chemin: String::from("/jeux/zelda.gba"),
            est_dossier: false,
            enfants: vec![],
        },
    ];
    let extensions = vec![String::from("nes"), String::from("gba")];
    let trouves = trouver_jeux(&arbre, 1, &extensions);
    assert_eq!(trouves, vec!["/jeux/nes/mario.nes", "/jeux/zelda.gba"]);
    let profonds = trouver_jeux(&arbre, 2, &extensions);
    assert_eq!(
        profonds,
        vec!["/jeux/nes/mario.nes", "/jeux/nes/trop/cache.nes", "/jeux/zelda.gba"]
    );
}

#[test]
fn extensions_et_suffixes() {
    let config = LudothequeConfig {
        utilisateurs: vec![],
        emulateurs: vec![
            Emulateur {
                nom: String::from("nes"),
                commande: String::from("emu {chemin}"),
                extensions: vec![String::from("nes"), String::from("zip")],
            },
            Emulateur {
                nom: String::from("gba"),
                commande: String::from("emu {chemin}"),
                extensions: vec![String::from("gba")],
            },
        ],
        repertoire_jeux: None,
        repertoire_donnees: None,
        profondeur_recherche: None,
        langue: String::from("Français"),
    };
    assert_eq!(extensions_valables(&config), vec!["nes", "zip", "gba"]);
    assert!(fini_par(String::from("a.nes"), String::from(".nes")));
    assert!(!fini_par(String::from(".nes"), String::from(".nes")));
    assert!(!fini_par(String::from("a.nef"), String::from(".nes")));
}

#[test]
fn majuscule_et_config() {
    assert_eq!(majuscule("fr"), "FR");
    assert_eq!(majuscule("Fr-9"), "FR-9");
    let config = config_par_defaut(Some(String::from("/jeux")), None);
    assert_eq!(config.utilisateurs.len(), 1);
    assert_eq!(config.utilisateurs[0].pseudonyme, "user0");
    assert_eq!(config.repertoire_jeux.as_deref(), Some("/jeux"));
    assert_eq!(config.langue, "Français");
}
