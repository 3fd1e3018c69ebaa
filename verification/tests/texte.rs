use ludotheque::analyse::{analyser_chemin, analyser_entier, rogner};
use ludotheque::dl::{lien_grande_couverture, nom_fichier_couverture};
use ludotheque::chemins::{determiner_chemin, obtenir_db_url, trouver_chemin, XDG};
use ludotheque::erreurs::TraitErreur;
use ludotheque::igdb::{
    client_modele, determiner_expire, requete_recuperer_jeu, requete_trouver_jeu, verifier_token,
    Token,
};
use ludotheque::json::guillemeter_json;
use ludotheque::objet::{CollectionIGDB, GenreIGDB, JeuIGDB, Note, VideoIGDB};
use ludotheque::openai::{obtenir_modele, requete, token_modele};
use ludotheque::sql::{guillemeter, texte_i64, texte_u32, texte_u64, ValeurSQL};
use ludotheque::openai::ErreurDemandeRequete;
use ludotheque::scan::{ErreurIdentification, ErreurTraduction};
use ludotheque::trad::{rendre_json_traduisible, Traduisible};

fn jeu_nu(id: u32, name: &str) -> JeuIGDB {
    JeuIGDB {
        id,
        name: String::from(name),
        slug: None,
        name_traduit: None,
        alternative_names: None,
        storyline: None,
        summary: None,
        storyline_traduit: None,
        summary_traduit: None,
        first_release_date: None,
        collection: None,
        franchise: None,
        category: None,
        genres: None,
        themes: None,
        keywords: None,
        platforms: None,
        remakes: None,
        remasters: None,
        similar_games: None,
        rating: None,
        rating_count: None,
        cover: None,
        artworks: None,
        screenshots: None,
        videos: None,
        updated_at: None,
    }
}

#[test]
fn analyse_des_noms_de_fichiers() {
    // the three reference filenames
    let zelda = analyser_chemin("/jeux/Zelda [106, FR].zip");
    assert_eq!(zelda.titre, "Zelda");
    assert_eq!(zelda.id, Some(106));
    assert_eq!(zelda.langue.as_deref(), Some("FR"));

    let mario = analyser_chemin("/jeux/Mario.rom");
    assert_eq!(mario.nom_fichier, "Mario.rom");
    assert_eq!(mario.titre, "Mario");
    assert_eq!(mario.id, None);
    assert_eq!(mario.langue, None);

    let inconnu = analyser_chemin("Unknown [0].gba");
    assert_eq!(inconnu.titre, "Unknown");
    assert_eq!(inconnu.id, Some(0));
    assert_eq!(inconnu.langue, None);
}

#[test]
fn analyse_cas_limites() {
    let double = analyser_chemin("/j/Jeu [1] [2, de].zip");
    // the last bracket pair is the metadata block
    assert_eq!(double.titre, "Jeu [1]");
    assert_eq!(double.id, Some(2));
    assert_eq!(double.langue.as_deref(), Some("de"));

    let point = analyser_chemin("/j/Zelda [1.5].zip");
    assert_eq!(point.titre, "Zelda");
    assert_eq!(point.id, None);
    assert_eq!(point.langue.as_deref(), Some("1.5"));
}

#[test]
fn analyse_des_entiers() {
    assert_eq!(analyser_entier("106"), Some(106));
    assert_eq!(analyser_entier("+3"), Some(3));
    assert_eq!(analyser_entier("0"), Some(0));
    assert_eq!(analyser_entier("4294967295"), Some(u32::MAX));
    assert_eq!(analyser_entier("4294967296"), None);
    assert_eq!(analyser_entier(""), None);
    assert_eq!(analyser_entier("FR"), None);
    assert_eq!(analyser_entier("1 2"), None);
    assert_eq!(rogner("  Zelda\t"), "Zelda");
}

#[test]
fn rendu_sql_exact() {
    assert_eq!(texte_u64(0), "0");
    assert_eq!(texte_u64(105070), "105070");
    assert_eq!(texte_u32(42), "42");
    assert_eq!(texte_i64(-87), "-87");
    assert_eq!(texte_i64(i64::MIN), "-9223372036854775808");
    assert_eq!(guillemeter(String::from("O'Brien")), "'O''Brien'");
    assert_eq!(guillemeter(String::new()), "''");
    let absent: Option<String> = None;
    assert_eq!(absent.convertir(), "NULL");
    assert_eq!(true.convertir(), "TRUE");
    assert_eq!(Note::nouvelle(String::from("81.5")).unwrap().convertir(), "81.5");
}

#[test]
fn commandes_sql_exactes() {
    let collection = CollectionIGDB {
        id: 7,
        name: String::from("L'ile"),
        slug: Some(String::from("ile")),
        name_traduit: None,
        updated_at: Some(5),
    };
    assert_eq!(
        collection.commande_enregistrer(),
        "INSERT INTO collections (\"id\", \"name\", \"name_traduit\", \"slug\", \
         \"updated_at\") VALUES (7, 'L''ile', NULL, 'ile', 5);"
    );
    assert_eq!(
        collection.commande_traduire(),
        "UPDATE collections SET \"name_traduit\" = 'L''ile' WHERE \"id\" = 7;"
    );
    assert_eq!(
        CollectionIGDB::commande_charger(7),
        "SELECT * FROM collections WHERE \"id\" = 7;"
    );
}

#[test]
fn requetes_distantes_exactes() {
    let champs = "fields name, slug, alternative_names.*, storyline, summary, \
                  first_release_date, collection.*, franchise.*, category, genres.*, themes.*, \
                  keywords.*, platforms, remakes, remasters, similar_games, rating, \
                  rating_count, cover.*, artworks.*, screenshots.*, videos.*, updated_at;";
    let recherche = requete_trouver_jeu(String::from("Mario"), None);
    assert_eq!(recherche.endpoint, "games/");
    assert_eq!(recherche.corps, format!("search \"Mario\";{champs}limit 1;"));
    let filtree = requete_trouver_jeu(String::from("Mario"), Some(18));
    assert_eq!(
        filtree.corps,
        format!("search \"Mario\";{champs}limit 1;where platforms = (18)")
    );
    let par_id = requete_recuperer_jeu(106);
    assert_eq!(par_id.corps, format!("{champs}limit 1;where id = 106;"));
}

#[test]
fn requete_de_traduction_exacte() {
    let r = requete(String::from("Sois bref."), String::from("Un \"conte\"\nvite"));
    assert_eq!(
        r.corps,
        "{\"model\": \"gpt-3.5-turbo\", \"messages\": [{\"role\": \"system\", \"content\": \
         \"Sois bref.\"}, {\"role\": \"user\", \"content\": \"Un \\\"conte\\\"\\nvite\"}], \
         \"temperature\": 0.2}"
    );
    assert_eq!(obtenir_modele(), "gpt-3.5-turbo");
    assert_eq!(guillemeter_json("a\\b\t"), "\"a\\\\b\\t\"");
}

#[test]
fn json_du_jeu_prepare() {
    let mut jeu = jeu_nu(3, "Tale");
    jeu.summary = Some(String::from("Old."));
    jeu.genres = Some(vec![
        GenreIGDB {
            id: 1,
            name: String::from("Aventure"),
            slug: Some(String::from("adv")),
            name_traduit: None,
            updated_at: Some(9),
        },
        GenreIGDB {
            id: 2,
            name: String::from("Action"),
            slug: None,
            name_traduit: None,
            updated_at: None,
        },
    ]);
    assert_eq!(
        rendre_json_traduisible(&jeu),
        "{\"id\": 3, \"name\": \"Tale\", \"summary\": \"Old.\", \"genres\": \
         [{\"id\": 1, \"name\": \"Aventure\"}, {\"id\": 2, \"name\": \"Action\"}]}"
    );
    let prompt = match jeu.prompt(&String::from("Français")) {
        Ok(p) => p,
        Err(_) => panic!("le prompt doit se construire"),
    };
    assert!(prompt.starts_with("Translate this game into Français"));
    assert!(prompt.ends_with("\"Action\"}]}"));
}

#[test]
fn preparation_de_traduction_allege() {
    let video = VideoIGDB {
        id: 4,
        name: String::from("Intro"),
        name_traduit: Some(String::from("Ouverture")),
        video_id: Some(String::from("xyz")),
    };
    let preparee = video.preparer_traduction();
    assert_eq!(preparee.name, "Intro");
    assert_eq!(preparee.name_traduit, None);
    assert_eq!(preparee.video_id, None);
    let mut jeu = jeu_nu(3, "Tale");
    jeu.rating_count = Some(12);
    jeu.platforms = Some(vec![1]);
    let prepare = jeu.preparer_traduction();
    assert_eq!(prepare.name, "Tale");
    assert_eq!(prepare.rating_count, None);
    assert_eq!(prepare.platforms, None);
}

#[test]
fn jetons_et_expiration() {
    assert!(verifier_token(100, 100));
    assert!(verifier_token(100, 101));
    assert!(!verifier_token(101, 100));
    let token = Token {
        access_token: String::from("jeton"),
        expires_in: 3600,
        token_type: String::from("bearer"),
    };
    assert_eq!(determiner_expire(1000, &token).expires_at, 4600);
    let modele = client_modele();
    assert_eq!(modele.client_id, "your_client_id");
    assert_eq!(token_modele().secret_key, "your_openai_api_key");
}

#[test]
fn chemins_xdg_et_url() {
    // the lookups read the real environment: only the error shapes are fixed
    match trouver_chemin(String::from("introuvable-xyz.json"), XDG::CONFIG) {
        Ok(_) => panic!("un fichier inattendu existe"),
        Err(e) => {
            let texte = e.message();
            assert!(texte.contains("introuvable-xyz.json"));
            assert!(texte.contains("CONFIG"));
        },
    }
    if let Ok(chemin) = determiner_chemin(String::from("essai.json"), XDG::CACHE) {
        assert!(chemin.ends_with("essai.json"));
    }
    if let Ok(url) = obtenir_db_url() {
        assert!(url.starts_with("sqlite://"));
    }
}

#[test]
fn messages_des_erreurs() {
    let erreur = ErreurIdentification {
        erreur: None,
        desc: "Pas de resultat correspondant au jeu.",
        chemin: String::from("/jeux/x.rom"),
    };
    assert_eq!(
        erreur.message(),
        "Impossible d'identifier le jeu /jeux/x.rom: Pas de resultat correspondant au jeu."
    );
    let reseau = ErreurDemandeRequete { erreur: String::from("coupure") };
    let res: Result<(), ludotheque::openai::Erreur> = reseau.as_err();
    let enveloppe = match res {
        Err(e) => e,
        Ok(_) => panic!("une erreur attendue"),
    };
    let traduction = ErreurTraduction { erreur: enveloppe };
    assert_eq!(
        traduction.as_string(),
        "Impossible de traduire le jeu.\nCause: Impossible d'envoyer la requête \
         OpenAI.\nCause: coupure"
    );
}

#[test]
fn commandes_composites_exactes() {
    let jeu = jeu_nu(3, "L'ile");
    assert_eq!(
        jeu.commande_enregistrer(),
        "INSERT INTO jeux (\"id\", \"name\", \"name_traduit\", \"slug\", \"storyline\", \
         \"storyline_traduit\", \"summary\", \"summary_traduit\", \"first_release_date\", \
         \"collection\", \"franchise\", \"category\", \"rating\", \"rating_count\", \
         \"cover\", \"updated_at\") VALUES (3, 'L''ile', NULL, NULL, NULL, NULL, NULL, NULL, \
         NULL, NULL, NULL, NULL, NULL, NULL, NULL, NULL);"
    );
    let mut traduit = jeu_nu(3, "Insel");
    traduit.summary = Some(String::from("Kurz"));
    assert_eq!(
        traduit.commande_traduire(),
        "UPDATE jeux SET \"name_traduit\" = 'Insel', \"storyline_traduit\" = NULL, \
         \"summary_traduit\" = 'Kurz' WHERE \"id\" = 3;"
    );
    let entree = ludotheque::objet::Jeu {
        jeu: Some(42),
        chemin: String::from("/jeux/a.rom"),
        nom: String::from("A"),
        langue: String::from("FR"),
    };
    assert_eq!(
        entree.commande_enregistrer(),
        "INSERT INTO catalogue (\"jeu\", \"chemin\", \"nom\", \"langue\") VALUES (42, \
         '/jeux/a.rom', 'A', 'FR');"
    );
    assert_eq!(
        ludotheque::objet::Jeu::commande_charger(&String::from("/jeux/a.rom")),
        "SELECT * FROM catalogue WHERE \"chemin\" = '/jeux/a.rom';"
    );
    assert_eq!(
        ludotheque::sql::commande_jeux_par("jeux.name LIKE 'A%'"),
        "SELECT * FROM catalogue LEFT JOIN jeux ON catalogue.jeu = jeux.id WHERE jeux.name \
         LIKE 'A%';"
    );
}

#[test]
fn cache_des_couvertures() {
    assert_eq!(nom_fichier_couverture(42), "42.jpg");
    assert_eq!(
        lien_grande_couverture("//images.igdb.com/igdb/image/upload/t_thumb/co1r7h.jpg"),
        "//images.igdb.com/igdb/image/upload/t_cover_big/co1r7h.jpg"
    );
    assert_eq!(lien_grande_couverture("//images/sans_marque.jpg"), "//images/sans_marque.jpg");
    assert_eq!(lien_grande_couverture(""), "");
}
