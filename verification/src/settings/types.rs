//! Configuration forms: provider credentials and the outbound proxy choice.

use vstd::prelude::*;

verus! {

/// All stored credentials, grouped by purpose.
#[derive(Debug, Clone, PartialEq, Eq)]
pub struct ApiKeysForm {
    pub translation: TranslationKeys,
    pub ai: AiKeys,
}

/// Credentials of the translation providers.
#[derive(Debug, Clone, PartialEq, Eq)]
pub struct TranslationKeys {
    pub baidu: BaiduKeys,
    pub youdao: AppPair,
    pub deepl: DeeplKey,
}

/// Baidu credentials: application id, API key and secret key.
#[derive(Debug, Clone, PartialEq, Eq)]
pub struct BaiduKeys {
    pub app_id: String,
    pub api_key: String,
    pub app_secret: String,
}

/// An application id with its secret.
#[derive(Debug, Clone, PartialEq, Eq)]
pub struct AppPair {
    pub app_id: String,
    pub app_secret: String,
}

/// DeepL credentials: API key and endpoint.
#[derive(Debug, Clone, PartialEq, Eq)]
pub struct DeeplKey {
    pub api_key: String,
    pub endpoint: String,
}

/// Credentials of the AI providers.
#[derive(Debug, Clone, PartialEq, Eq)]
pub struct AiKeys {
    pub openai: ApiKeyOnly,
    pub deepseek: ApiKeyOnly,
    pub qwen: ApiKeyOnly,
    pub doubao: ApiKeyOnly,
    pub wenxin: ApiKeyOnly,
    pub yuanbao: ApiKeyOnly,
}

/// A provider that needs nothing but an API key.
#[derive(Debug, Clone, PartialEq, Eq)]
pub struct ApiKeyOnly {
    pub api_key: String,
}

/// How outbound requests are routed.
#[derive(Debug, Clone, Copy, PartialEq, Eq)]
pub enum ProxyMode {
    /// No proxy is used at all, the operating system's included.
    Disable,
    /// The proxy settings of the operating system apply.
    System,
    /// The proxy described by the rest of the form applies.
    Manual,
}

/// The scheme spoken to a manually configured proxy.
#[derive(Debug, Clone, Copy, PartialEq, Eq)]
pub enum ProxyProtocol {
    Http,
    Https,
    Socks5,
}

/// The stored proxy configuration.
#[derive(Debug, Clone, PartialEq, Eq)]
pub struct NetworkProxyForm {
    pub mode: ProxyMode,
    pub protocol: Option<ProxyProtocol>,
    pub host: Option<String>,
    pub port: Option<u16>,
    pub username: Option<String>,
    pub password: Option<String>,
    pub no_proxy: Option<Vec<String>>,
}

impl ApiKeyOnly {
    /// The key is empty.
    pub open spec fn is_blank(self) -> bool {
        self.api_key@.len() == 0
    }
}

impl Default for ApiKeyOnly {
    fn default() -> (form: Self)
        ensures
            form.is_blank(),
    {
        ApiKeyOnly { api_key: String::new() }
    }
}

impl AppPair {
    /// Both fields are empty.
    pub open spec fn is_blank(self) -> bool {
        self.app_id@.len() == 0 && self.app_secret@.len() == 0
    }
}

impl Default for AppPair {
    fn default() -> (form: Self)
        ensures
            form.is_blank(),
    {
        AppPair { app_id: String::new(), app_secret: String::new() }
    }
}

impl DeeplKey {
    /// Both fields are empty.
    pub open spec fn is_blank(self) -> bool {
        self.api_key@.len() == 0 && self.endpoint@.len() == 0
    }
}

impl Default for DeeplKey {
    fn default() -> (form: Self)
        ensures
            form.is_blank(),
    {
        DeeplKey { api_key: String::new(), endpoint: String::new() }
    }
}

impl BaiduKeys {
    /// All three fields are empty.
    pub open spec fn is_blank(self) -> bool {
        self.app_id@.len() == 0 && self.api_key@.len() == 0 && self.app_secret@.len() == 0
    }
}

impl Default for BaiduKeys {
    fn default() -> (form: Self)
        ensures
            form.is_blank(),
    {
        BaiduKeys { app_id: String::new(), api_key: String::new(), app_secret: String::new() }
    }
}

impl TranslationKeys {
    /// Every provider's credentials are empty.
    pub open spec fn is_blank(self) -> bool {
        self.baidu.is_blank() && self.youdao.is_blank() && self.deepl.is_blank()
    }
}

impl Default for TranslationKeys {
    fn default() -> (form: Self)
        ensures
            form.is_blank(),
    {
        TranslationKeys {
            baidu: BaiduKeys::default(),
            youdao: AppPair::default(),
            deepl: DeeplKey::default(),
        }
    }
}

impl AiKeys {
    /// Every provider's key is empty.
    pub open spec fn is_blank(self) -> bool {
        &&& self.openai.is_blank()
        &&& self.deepseek.is_blank()
        &&& self.qwen.is_blank()
        &&& self.doubao.is_blank()
        &&& self.wenxin.is_blank()
        &&& self.yuanbao.is_blank()
    }
}

impl Default for AiKeys {
    fn default() -> (form: Self)
        ensures
            form.is_blank(),
    {
        AiKeys {
            openai: ApiKeyOnly::default(),
            deepseek: ApiKeyOnly::default(),
            qwen: ApiKeyOnly::default(),
            doubao: ApiKeyOnly::default(),
            wenxin: ApiKeyOnly::default(),
            yuanbao: ApiKeyOnly::default(),
        }
    }
}

impl ApiKeysForm {
    /// No credential has been entered anywhere.
    pub open spec fn is_blank(self) -> bool {
        self.translation.is_blank() && self.ai.is_blank()
    }
}

impl Default for ApiKeysForm {
    fn default() -> (form: Self)
        ensures
            form.is_blank(),
    {
        ApiKeysForm { translation: TranslationKeys::default(), ai: AiKeys::default() }
    }
}

} // verus!
