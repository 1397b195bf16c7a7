//! The credential store end to end: the library's operations driven
//! through keyring's entry layer against an in-process credential store,
//! plugged in the way keyring lets clients supply their own facility.
//! The store is installed once per process, whichever test runs first,
//! so parallel tests share one table and use distinct provider names.

use std::any::Any;
use std::collections::HashMap;
use std::sync::{Arc, Mutex, Once};

use keyring::credential::{Credential, CredentialApi, CredentialBuilderApi};
use keyring::set_default_credential_builder;

use pixcore_bridge::credentials::{
    delete_api_key, get_api_key, has_api_key, store_api_key, SecretError,
};

type Table = Arc<Mutex<HashMap<(String, String), Vec<u8>>>>;

#[derive(Debug)]
struct SharedStoreBuilder {
    table: Table,
}

#[derive(Debug)]
struct SharedCredential {
    table: Table,
    slot: (String, String),
}

impl CredentialBuilderApi for SharedStoreBuilder {
    fn build(
        &self,
        _target: Option<&str>,
        service: &str,
        user: &str,
    ) -> keyring::Result<Box<Credential>> {
        Ok(Box::new(SharedCredential {
            table: Arc::clone(&self.table),
            slot: (service.to_string(), user.to_string()),
        }))
    }

    fn as_any(&self) -> &dyn Any {
        self
    }
}

impl CredentialApi for SharedCredential {
    fn set_secret(&self, secret: &[u8]) -> keyring::Result<()> {
        self.table
            .lock()
            .unwrap()
            .insert(self.slot.clone(), secret.to_vec());
        Ok(())
    }

    fn get_secret(&self) -> keyring::Result<Vec<u8>> {
        match self.table.lock().unwrap().get(&self.slot) {
            Some(v) => Ok(v.clone()),
            None => Err(keyring::Error::NoEntry),
        }
    }

    fn delete_credential(&self) -> keyring::Result<()> {
        match self.table.lock().unwrap().remove(&self.slot) {
            Some(_) => Ok(()),
            None => Err(keyring::Error::NoEntry),
        }
    }

    fn as_any(&self) -> &dyn Any {
        self
    }
}

static INSTALL: Once = Once::new();

fn install_store() {
    INSTALL.call_once(|| {
        set_default_credential_builder(Box::new(SharedStoreBuilder {
            table: Arc::new(Mutex::new(HashMap::new())),
        }));
    });
}

#[test]
fn store_then_fetch_yields_the_stored_secret() {
    install_store();
    store_api_key("roundtrip-provider", "secret-one").unwrap();
    assert_eq!(
        get_api_key("roundtrip-provider"),
        Ok(Some("secret-one".to_string()))
    );
}

#[test]
fn a_second_store_overwrites_the_first() {
    install_store();
    store_api_key("overwrite-provider", "first").unwrap();
    store_api_key("overwrite-provider", "second").unwrap();
    assert_eq!(
        get_api_key("overwrite-provider"),
        Ok(Some("second".to_string()))
    );
}

#[test]
fn distinct_providers_use_distinct_slots() {
    install_store();
    store_api_key("provider-one", "alpha").unwrap();
    store_api_key("provider-two", "beta").unwrap();
    assert_eq!(get_api_key("provider-one"), Ok(Some("alpha".to_string())));
    assert_eq!(get_api_key("provider-two"), Ok(Some("beta".to_string())));
}

#[test]
fn remove_then_fetch_is_absent_and_remove_is_idempotent() {
    install_store();
    store_api_key("removal-provider", "soon gone").unwrap();
    delete_api_key("removal-provider").unwrap();
    assert_eq!(get_api_key("removal-provider"), Ok(None));
    assert_eq!(delete_api_key("removal-provider"), Ok(()));
}

#[test]
fn a_provider_never_stored_is_absent_not_an_error() {
    install_store();
    assert_eq!(get_api_key("never-stored-provider"), Ok(None));
    assert_eq!(has_api_key("never-stored-provider"), Ok(false));
}

#[test]
fn store_fetch_remove_scenario() {
    install_store();
    store_api_key("openai", "sk-test-123").unwrap();
    assert_eq!(get_api_key("openai"), Ok(Some("sk-test-123".to_string())));
    delete_api_key("openai").unwrap();
    assert_eq!(get_api_key("openai"), Ok(None));
    assert_eq!(has_api_key("openai"), Ok(false));
}

#[test]
fn has_reports_a_stored_secret() {
    install_store();
    store_api_key("presence-provider", "present").unwrap();
    assert_eq!(has_api_key("presence-provider"), Ok(true));
    delete_api_key("presence-provider").unwrap();
    assert_eq!(has_api_key("presence-provider"), Ok(false));
}

#[test]
fn an_empty_provider_name_is_rejected_by_every_operation() {
    install_store();
    assert_eq!(
        store_api_key("", "anything"),
        Err(SecretError::ArgumentInvalid)
    );
    assert_eq!(get_api_key(""), Err(SecretError::ArgumentInvalid));
    assert_eq!(delete_api_key(""), Err(SecretError::ArgumentInvalid));
    assert_eq!(has_api_key(""), Err(SecretError::ArgumentInvalid));
}
