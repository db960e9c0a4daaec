use bridge_core::config::{Bridge, DBOptions, Homeserver};
use bridge_core::registration::{
    Namespace, Namespaces, Registration, generate_registration, generate_token,
    registration_with_tokens,
};
use bridge_core::ConfigFile;
use rand::thread_rng;

fn config(prefix: &str) -> ConfigFile {
    ConfigFile {
        homeserver: Homeserver {
            address: "https://matrix.chir.rs/".to_owned(),
            domain: "chir.rs".to_owned(),
            mscs: vec![],
        },
        bridge: Bridge {
            listen_address: vec!["0.0.0.0".to_owned()],
            port: 58913,
            bridge_url: "http://localhost:58913/".to_owned(),
            prefix: prefix.to_owned(),
            db: DBOptions::default(),
        },
    }
}

#[test]
fn generate_token_always_unequal() {
    let mut rng = thread_rng();
    assert_ne!(generate_token(&mut rng), generate_token(&mut rng));
}

#[test]
fn generate_registration_smoketest() {
    let config = config("");
    drop(generate_registration(&config));
}

#[test]
fn a_token_has_32_letters_and_digits() {
    let mut rng = thread_rng();
    for _ in 0..50 {
        let token = generate_token(&mut rng);
        assert_eq!(token.len(), 32);
        assert_eq!(token.chars().count(), 32);
        assert!(token.chars().all(|c| c.is_ascii_alphanumeric()));
    }
}

#[test]
fn a_registration_is_exact_but_for_its_tokens() {
    let registration =
        registration_with_tokens("bridge", "http://localhost:58913/", "as".to_owned(), "hs".to_owned());
    assert_eq!(
        registration,
        Registration {
            id: "discord".to_owned(),
            url: "http://localhost:58913/".to_owned(),
            as_token: "as".to_owned(),
            hs_token: "hs".to_owned(),
            sender_localpart: "bridge_discordbot".to_owned(),
            namespaces: Namespaces {
                users: vec![
                    Namespace { exclusive: true, regex: "@bridge_discord_.*".to_owned() },
                    Namespace { exclusive: true, regex: "@bridge_discordbot".to_owned() },
                ],
                aliases: vec![Namespace { exclusive: true, regex: "#bridge_discord_.*".to_owned() }],
                rooms: vec![],
            },
            rate_limited: Some(false),
            protocols: Some(vec!["com.discord".to_owned()]),
        }
    );
}

#[test]
fn a_generated_registration_has_fresh_tokens() {
    let first = generate_registration(&config("p"));
    let second = generate_registration(&config("p"));
    assert_eq!(first.as_token.len(), 32);
    assert_eq!(first.hs_token.len(), 32);
    assert!(first.as_token.chars().all(|c| c.is_ascii_alphanumeric()));
    assert!(first.hs_token.chars().all(|c| c.is_ascii_alphanumeric()));
    assert_ne!(first.as_token, first.hs_token);
    assert_ne!(first.as_token, second.as_token);
    assert_eq!(first.sender_localpart, "p_discordbot");
    assert_eq!(first.url, "http://localhost:58913/");
    assert_eq!(first.namespaces, second.namespaces);
    assert_eq!(first.namespaces.users[0].regex, "@p_discord_.*");
    assert_eq!(first.id, "discord");
}

#[test]
fn an_empty_prefix_leaves_the_bare_names() {
    let registration = generate_registration(&config(""));
    assert_eq!(registration.sender_localpart, "_discordbot");
    assert_eq!(registration.namespaces.users[0].regex, "@_discord_.*");
    assert_eq!(registration.namespaces.users[1].regex, "@_discordbot");
    assert_eq!(registration.namespaces.aliases[0].regex, "#_discord_.*");
}
