use weebo_authentik::crd::instance::SecretKeyRef;
use weebo_authentik::ports::GatewayFactoryError;
use weebo_authentik::secret_ref::{read_secret_key, token_from_secret};

fn key_ref() -> SecretKeyRef {
    SecretKeyRef {
        name: "authentik-token".to_string(),
        namespace: "default".to_string(),
        key: "token".to_string(),
    }
}

#[test]
fn a_present_key_is_returned_and_a_missing_one_named() {
    assert_eq!(read_secret_key("secret", &key_ref(), Ok(Some(b"abc".to_vec()))), Ok(b"abc".to_vec()));
    assert_eq!(
        read_secret_key("secret", &key_ref(), Ok(None)),
        Err("secret default/authentik-token has no key \"token\"".to_string())
    );
    assert_eq!(
        read_secret_key("Authentik CA secret", &key_ref(), Err("404 Not Found".to_string())),
        Err("fetching Authentik CA secret default/authentik-token: 404 Not Found".to_string())
    );
}

#[test]
fn the_token_must_be_utf8() {
    assert_eq!(token_from_secret(&key_ref(), b"test-token".to_vec()), Ok("test-token".to_string()));
    match token_from_secret(&key_ref(), vec![0xff, 0xfe]) {
        Err(GatewayFactoryError::ResolutionFailed(m)) => {
            assert!(m.starts_with("secret default/authentik-token key \"token\" is not valid utf-8: "), "{m}")
        }
        other => panic!("unexpected {other:?}"),
    }
}
