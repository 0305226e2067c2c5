//! The settings store as the backend sees it: two logical entries, each a
//! serialized form, and the credential encryption that protects them at rest.

use crate::error::{AppError, ErrorView};
use vstd::prelude::*;
use vstd::string::*;

pub mod crypto;
pub mod types;

verus! {

/// Logical name of the entry that holds the provider credentials.
pub const KEY_API_KEYS: &'static str = "api_keys";

/// Logical name of the entry that holds the proxy configuration.
pub const KEY_NETWORK_PROXY: &'static str = "network_proxy";

/// The entries of the settings table. There is at most one row for each.
#[derive(Debug, Clone, Copy, PartialEq, Eq)]
pub enum SettingsEntry {
    /// The provider credentials.
    ApiKeys,
    /// The proxy configuration.
    NetworkProxy,
}

impl SettingsEntry {
    /// The logical name of the entry.
    pub open spec fn name(self) -> Seq<char> {
        match self {
            SettingsEntry::ApiKeys => KEY_API_KEYS@,
            SettingsEntry::NetworkProxy => KEY_NETWORK_PROXY@,
        }
    }

    /// Whether the entry is kept encrypted: credentials are, the proxy
    /// configuration is not.
    pub open spec fn is_secret(self) -> bool {
        self is ApiKeys
    }

    /// The logical name under which the entry is stored.
    pub fn key(&self) -> (key: &'static str)
        ensures
            key@ == self.name(),
    {
        match self {
            SettingsEntry::ApiKeys => KEY_API_KEYS,
            SettingsEntry::NetworkProxy => KEY_NETWORK_PROXY,
        }
    }

    /// Tells whether the entry's value is encrypted under the master key
    /// before it is stored, and decrypted after it is read.
    pub fn encrypted(&self) -> (secret: bool)
        ensures
            secret == self.is_secret(),
    {
        match self {
            SettingsEntry::ApiKeys => true,
            SettingsEntry::NetworkProxy => false,
        }
    }
}

/// How a query for one entry of the settings table ended.
#[derive(Debug, Clone, PartialEq, Eq)]
pub enum RowLookup {
    /// The entry exists and holds this serialized form.
    Found(String),
    /// The table has no row for the entry.
    NoRows,
    /// The query failed; the payload says why.
    Failed(String),
}

/// What a lookup of the entry `key` means for the caller: the stored form,
/// nothing when the entry was never saved, or a database error that names
/// the entry.
pub open spec fn setting_of(key: Seq<char>, lookup: RowLookup) -> Result<
    Option<Seq<char>>,
    ErrorView,
> {
    match lookup {
        RowLookup::Found(value) => Ok(Some(value@)),
        RowLookup::NoRows => Ok(None),
        RowLookup::Failed(reason) => Err(
            ErrorView::Db("query "@ + key + " failed: "@ + reason@),
        ),
    }
}

/// The mathematical content of a stored form or an error.
pub open spec fn setting_view(outcome: Result<Option<String>, AppError>) -> Result<
    Option<Seq<char>>,
    ErrorView,
> {
    match outcome {
        Ok(Some(value)) => Ok(Some(value@)),
        Ok(None) => Ok(None),
        Err(error) => Err(error@),
    }
}

/// Turns the outcome of a query for the entry `key` into the stored form. An
/// entry that was never saved is not an error.
pub fn stored_setting(key: &str, lookup: RowLookup) -> (outcome: Result<Option<String>, AppError>)
    ensures
        setting_view(outcome) == setting_of(key@, lookup),
{
    match lookup {
        RowLookup::Found(value) => Ok(Some(value)),
        RowLookup::NoRows => Ok(None),
        RowLookup::Failed(reason) => {
            let mut text = String::from_str("query ");
            text.append(key);
            text.append(" failed: ");
            text.append(reason.as_str());
            Err(AppError::Db(text))
        },
    }
}

} // verus!
