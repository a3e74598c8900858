use labo::config::{Config, ConfigError, Program};

#[test]
fn config_deserialize_programs() {
    let programs = vec![
        Program {
            name: String::from("Baumwolle"),
            temp: 30,
            duration: 200,
        },
        Program {
            name: String::from("Baumwolle"),
            temp: 40,
            duration: 210,
        },
        Program {
            name: String::from("Baumwolle"),
            temp: 60,
            duration: 250,
        },
        Program {
            name: String::from("Plegeleicht"),
            temp: 30,
            duration: 150,
        },
    ];

    let config = match Config::new() {
        Ok(config) => config,
        Err(e) => panic!("{:?}", e),
    };

    assert_eq!(config.programs.len(), programs.len());
    for i in 1..programs.len() {
        assert_eq!(programs[i], config.programs[i]);
    }
}

#[test]
fn config_with_token_keeps_it_and_rejects_an_empty_one() {
    let config = Config::with_token("token_test_blah".to_string()).unwrap();
    assert_eq!(config.api_token, "token_test_blah");
    assert_eq!(config.programs.len(), 4);
    assert!(matches!(
        Config::with_token(String::new()),
        Err(ConfigError::MissingToken)
    ));
}

#[test]
fn config_token_slot_starts_empty() {
    let config = Config::new().unwrap();
    assert_eq!(config.api_token, "");
    // The first catalogue entry, which the loop above does not cover.
    assert_eq!(
        config.programs[0],
        Program {
            name: String::from("Baumwolle"),
            temp: 30,
            duration: 200,
        }
    );
}
