//! The server's settings and what they are where nothing is configured.
use vstd::prelude::*;
use crate::text::{cat2, lower, lowered};

verus! {

/// Signing in through other services.
#[derive(Debug)]
#[allow(missing_docs)]
pub struct OAuthSettings {
    pub base_url: String,
    pub google: OAuthProviderSettings,
    pub facebook: OAuthProviderSettings,
    pub github: OAuthProviderSettings,
    pub linkedin: OAuthProviderSettings,
    pub microsoft: OAuthProviderSettings,
}

/// One service to sign in through.
#[derive(Debug)]
#[allow(missing_docs)]
pub struct OAuthProviderSettings {
    pub client_id: String,
    pub client_secret: String,
}

/// Where the server listens.
#[derive(Debug)]
#[allow(missing_docs)]
pub struct AppSettings {
    pub host: String,
    pub port: u16,
    pub static_dir: Option<String>,
    pub cors_origins: Vec<String>,
}

/// The database.
#[derive(Debug)]
#[allow(missing_docs)]
pub struct DatabaseSettings {
    pub url: String,
    pub name: String,
    pub max_pool_size: Option<u32>,
    pub min_pool_size: Option<u32>,
}

/// The tokens.
#[derive(Debug)]
#[allow(missing_docs)]
pub struct JwtSettings {
    pub secret: String,
    pub access_token_ttl_secs: u64,
    pub refresh_token_ttl_secs: u64,
    pub issuer: String,
}

/// Redis.
#[derive(Debug)]
#[allow(missing_docs)]
pub struct RedisSettings {
    pub url: String,
}

/// The object store.
#[derive(Debug)]
#[allow(missing_docs)]
pub struct S3Settings {
    pub endpoint: String,
    pub access_key: String,
    pub secret_key: String,
    pub bucket: String,
    pub region: String,
}

/// The media workers.
#[derive(Debug)]
#[allow(missing_docs)]
pub struct MediasoupSettings {
    pub num_workers: u32,
    pub listen_ip: String,
    pub announced_ip: String,
    pub rtc_min_port: u16,
    pub rtc_max_port: u16,
}

/// The relay.
#[derive(Debug)]
#[allow(missing_docs)]
pub struct TurnSettings {
    pub url: Option<String>,
    pub username: Option<String>,
    pub password: Option<String>,
    pub force_relay: Option<bool>,
}

/// Document recognition.
#[derive(Debug)]
#[allow(missing_docs)]
pub struct ClaudeSettings {
    pub api_key: Option<String>,
    pub model: String,
    pub max_tokens: u32,
}

/// Billing.
#[derive(Debug)]
#[allow(missing_docs)]
pub struct StripeSettings {
    pub secret_key: String,
    pub publishable_key: String,
    pub webhook_secret: String,
    pub price_pro: String,
    pub price_business: String,
}

/// Pictures.
#[derive(Debug)]
#[allow(missing_docs)]
pub struct GiphySettings {
    pub api_key: String,
}

/// Transcription; the thresholds of voice detection stand elsewhere.
#[derive(Debug)]
#[allow(missing_docs)]
pub struct TranscriptionSettings {
    pub enabled: bool,
    pub backend: String,
    pub whisper_model_path: Option<String>,
    pub language: Option<String>,
    pub vad_model_path: Option<String>,
    pub vad_min_speech_frames: usize,
    pub vad_min_silence_frames: usize,
    pub vad_pre_speech_pad_frames: usize,
    pub nim_endpoint: Option<String>,
    pub onnx_model_path: Option<String>,
}

/// All of them.
#[derive(Debug)]
#[allow(missing_docs)]
pub struct Settings {
    pub app: AppSettings,
    pub database: DatabaseSettings,
    pub jwt: JwtSettings,
    pub redis: RedisSettings,
    pub s3: S3Settings,
    pub mediasoup: MediasoupSettings,
    pub turn: TurnSettings,
    pub claude: ClaudeSettings,
    pub oauth: OAuthSettings,
    pub stripe: StripeSettings,
    pub giphy: GiphySettings,
    pub transcription: TranscriptionSettings,
}

/// What a setting is where nothing is configured.
#[derive(Debug)]
pub enum DefaultValue {
    /// A text.
    Text(String),
    /// A whole number.
    Number(i64),
    /// A number with decimals, as its digits.
    Decimal(&'static str),
    /// A truth value.
    Flag(bool),
    /// An empty list.
    NoTexts,
    /// Nothing.
    Nothing,
}

/// What a default says.
pub enum DefaultView {
    /// A text.
    Text(Seq<char>),
    /// A whole number.
    Number(int),
    /// A number with decimals, as its digits.
    Decimal(Seq<char>),
    /// A truth value.
    Flag(bool),
    /// An empty list.
    NoTexts,
    /// Nothing.
    Nothing,
}

impl View for DefaultValue {
    type V = DefaultView;

    open spec fn view(&self) -> DefaultView {
        match *self {
            DefaultValue::Text(s) => DefaultView::Text(s@),
            DefaultValue::Number(n) => DefaultView::Number(n as int),
            DefaultValue::Decimal(s) => DefaultView::Decimal(s@),
            DefaultValue::Flag(b) => DefaultView::Flag(b),
            DefaultValue::NoTexts => DefaultView::NoTexts,
            DefaultValue::Nothing => DefaultView::Nothing,
        }
    }
}

/// What defaults say, by name.
pub open spec fn default_views(list: Seq<(String, DefaultValue)>) -> Seq<
    (Seq<char>, DefaultView),
> {
    list.map_values(|d: (String, DefaultValue)| (d.0@, d.1@))
}

/// What `app` is where nothing is configured.
pub open spec fn spec_app() -> Seq<(Seq<char>, DefaultView)> {
    seq![
        ("app.host"@, DefaultView::Text("0.0.0.0"@)),
        ("app.port"@, DefaultView::Number(3000)),
        ("app.cors_origins"@, DefaultView::NoTexts),
    ]
}

/// What `database` is where nothing is configured.
pub open spec fn spec_database() -> Seq<(Seq<char>, DefaultView)> {
    seq![
        ("database.url"@, DefaultView::Text("mongodb://localhost:27019"@)),
        ("database.name"@, DefaultView::Text("roomler2"@)),
    ]
}

/// What `jwt` is where nothing is configured.
pub open spec fn spec_jwt() -> Seq<(Seq<char>, DefaultView)> {
    seq![
        ("jwt.secret"@, DefaultView::Text("change-me-in-production"@)),
        ("jwt.access_token_ttl_secs"@, DefaultView::Number(3600)),
        ("jwt.refresh_token_ttl_secs"@, DefaultView::Number(604800)),
        ("jwt.issuer"@, DefaultView::Text("roomler2"@)),
    ]
}

/// What `redis` is where nothing is configured.
pub open spec fn spec_redis() -> Seq<(Seq<char>, DefaultView)> {
    seq![
        ("redis.url"@, DefaultView::Text("redis://127.0.0.1:6379"@)),
    ]
}

/// What `s3` is where nothing is configured.
pub open spec fn spec_s3() -> Seq<(Seq<char>, DefaultView)> {
    seq![
        ("s3.endpoint"@, DefaultView::Text("http://localhost:9000"@)),
        ("s3.access_key"@, DefaultView::Text("minioadmin"@)),
        ("s3.secret_key"@, DefaultView::Text("minioadmin"@)),
        ("s3.bucket"@, DefaultView::Text("roomler2"@)),
        ("s3.region"@, DefaultView::Text("us-east-1"@)),
    ]
}

/// What `mediasoup` is where nothing is configured.
pub open spec fn spec_mediasoup() -> Seq<(Seq<char>, DefaultView)> {
    seq![
        ("mediasoup.num_workers"@, DefaultView::Number(2)),
        ("mediasoup.listen_ip"@, DefaultView::Text("0.0.0.0"@)),
        ("mediasoup.announced_ip"@, DefaultView::Text("127.0.0.1"@)),
        ("mediasoup.rtc_min_port"@, DefaultView::Number(40000)),
        ("mediasoup.rtc_max_port"@, DefaultView::Number(49999)),
    ]
}

/// What `turn` is where nothing is configured.
pub open spec fn spec_turn() -> Seq<(Seq<char>, DefaultView)> {
    seq![
        ("turn.url"@, DefaultView::Nothing),
        ("turn.username"@, DefaultView::Nothing),
        ("turn.password"@, DefaultView::Nothing),
        ("turn.force_relay"@, DefaultView::Flag(false)),
    ]
}

/// What the service that recognizes documents is where nothing is configured:
/// its table goes by its name in lower case, and so does its model.
pub open spec fn spec_recognition(service: Seq<char>) -> Seq<(Seq<char>, DefaultView)> {
    seq![
        (lower(service) + ".model"@, DefaultView::Text(lower(service) + "-sonnet-4-5-20250929"@)),
        (lower(service) + ".max_tokens"@, DefaultView::Number(4096)),
    ]
}

/// What `oauth` is where nothing is configured.
pub open spec fn spec_oauth() -> Seq<(Seq<char>, DefaultView)> {
    seq![
        ("oauth.base_url"@, DefaultView::Text("http://localhost:5001"@)),
        ("oauth.google.client_id"@, DefaultView::Text(""@)),
        ("oauth.google.client_secret"@, DefaultView::Text(""@)),
        ("oauth.facebook.client_id"@, DefaultView::Text(""@)),
        ("oauth.facebook.client_secret"@, DefaultView::Text(""@)),
        ("oauth.github.client_id"@, DefaultView::Text(""@)),
        ("oauth.github.client_secret"@, DefaultView::Text(""@)),
        ("oauth.linkedin.client_id"@, DefaultView::Text(""@)),
        ("oauth.linkedin.client_secret"@, DefaultView::Text(""@)),
        ("oauth.microsoft.client_id"@, DefaultView::Text(""@)),
        ("oauth.microsoft.client_secret"@, DefaultView::Text(""@)),
    ]
}

/// What `stripe` is where nothing is configured.
pub open spec fn spec_stripe() -> Seq<(Seq<char>, DefaultView)> {
    seq![
        ("stripe.secret_key"@, DefaultView::Text(""@)),
        ("stripe.publishable_key"@, DefaultView::Text(""@)),
        ("stripe.webhook_secret"@, DefaultView::Text(""@)),
        ("stripe.price_pro"@, DefaultView::Text(""@)),
        ("stripe.price_business"@, DefaultView::Text(""@)),
    ]
}

/// What `giphy` is where nothing is configured.
pub open spec fn spec_giphy() -> Seq<(Seq<char>, DefaultView)> {
    seq![
        ("giphy.api_key"@, DefaultView::Text(""@)),
    ]
}

/// What `transcription` is where nothing is configured.
pub open spec fn spec_transcription() -> Seq<(Seq<char>, DefaultView)> {
    seq![
        ("transcription.enabled"@, DefaultView::Flag(false)),
        ("transcription.backend"@, DefaultView::Text("local_whisper"@)),
        ("transcription.whisper_model_path"@, DefaultView::Text("models/ggml-base.en.bin"@)),
        ("transcription.onnx_model_path"@, DefaultView::Text("models/canary-1b-v2"@)),
        ("transcription.vad_model_path"@, DefaultView::Text("models/silero_vad.onnx"@)),
        ("transcription.vad_start_threshold"@, DefaultView::Decimal("0.5"@)),
        ("transcription.vad_end_threshold"@, DefaultView::Decimal("0.35"@)),
        ("transcription.vad_min_speech_frames"@, DefaultView::Number(3)),
        ("transcription.vad_min_silence_frames"@, DefaultView::Number(15)),
        ("transcription.vad_pre_speech_pad_frames"@, DefaultView::Number(10)),
        ("transcription.max_speech_duration_secs"@, DefaultView::Decimal("30.0"@)),
    ]
}

/// What every setting that has a default is where nothing is configured, given
/// the name of the service that recognizes documents.
pub open spec fn all_defaults(service: Seq<char>) -> Seq<(Seq<char>, DefaultView)> {
    spec_app() + spec_database() + spec_jwt() + spec_redis() + spec_s3() + spec_mediasoup()
        + spec_turn() + spec_recognition(service) + spec_oauth() + spec_stripe() + spec_giphy()
        + spec_transcription()
}

fn nothing() -> (r: Vec<(String, DefaultValue)>)
    ensures
        default_views(r@) == Seq::<(Seq<char>, DefaultView)>::empty(),
{
    let out: Vec<(String, DefaultValue)> = Vec::new();
    proof {
        assert(default_views(out@) =~= Seq::empty());
    }
    out
}

fn and(list: Vec<(String, DefaultValue)>, name: &str, value: DefaultValue) -> (r: Vec<
    (String, DefaultValue),
>)
    ensures
        default_views(r@) == default_views(list@).push((name@, value@)),
{
    let mut out: Vec<(String, DefaultValue)> = list;
    out.push((name.to_owned(), value));
    proof {
        assert(default_views(out@) =~= default_views(list@).push((name@, value@)));
    }
    out
}

fn both(a: Vec<(String, DefaultValue)>, b: Vec<(String, DefaultValue)>) -> (r: Vec<
    (String, DefaultValue),
>)
    ensures
        default_views(r@) == default_views(a@) + default_views(b@),
{
    let mut out: Vec<(String, DefaultValue)> = a;
    let mut rest: Vec<(String, DefaultValue)> = b;
    out.append(&mut rest);
    proof {
        assert(default_views(out@) =~= default_views(a@) + default_views(b@));
    }
    out
}

fn app_defaults() -> (r: Vec<(String, DefaultValue)>)
    ensures
        default_views(r@) == spec_app(),
{
    let list = nothing();
    let list = and(list, "app.host", DefaultValue::Text("0.0.0.0".to_owned()));
    let list = and(list, "app.port", DefaultValue::Number(3000));
    let list = and(list, "app.cors_origins", DefaultValue::NoTexts);
    list
}

fn database_defaults() -> (r: Vec<(String, DefaultValue)>)
    ensures
        default_views(r@) == spec_database(),
{
    let list = nothing();
    let list = and(
        list,
        "database.url",
        DefaultValue::Text("mongodb://localhost:27019".to_owned()),
    );
    let list = and(list, "database.name", DefaultValue::Text("roomler2".to_owned()));
    list
}

fn jwt_defaults() -> (r: Vec<(String, DefaultValue)>)
    ensures
        default_views(r@) == spec_jwt(),
{
    let list = nothing();
    let list = and(list, "jwt.secret", DefaultValue::Text("change-me-in-production".to_owned()));
    let list = and(list, "jwt.access_token_ttl_secs", DefaultValue::Number(3600));
    let list = and(list, "jwt.refresh_token_ttl_secs", DefaultValue::Number(604800));
    let list = and(list, "jwt.issuer", DefaultValue::Text("roomler2".to_owned()));
    list
}

fn redis_defaults() -> (r: Vec<(String, DefaultValue)>)
    ensures
        default_views(r@) == spec_redis(),
{
    let list = nothing();
    let list = and(list, "redis.url", DefaultValue::Text("redis://127.0.0.1:6379".to_owned()));
    list
}

fn s3_defaults() -> (r: Vec<(String, DefaultValue)>)
    ensures
        default_views(r@) == spec_s3(),
{
    let list = nothing();
    let list = and(list, "s3.endpoint", DefaultValue::Text("http://localhost:9000".to_owned()));
    let list = and(list, "s3.access_key", DefaultValue::Text("minioadmin".to_owned()));
    let list = and(list, "s3.secret_key", DefaultValue::Text("minioadmin".to_owned()));
    let list = and(list, "s3.bucket", DefaultValue::Text("roomler2".to_owned()));
    let list = and(list, "s3.region", DefaultValue::Text("us-east-1".to_owned()));
    list
}

fn mediasoup_defaults() -> (r: Vec<(String, DefaultValue)>)
    ensures
        default_views(r@) == spec_mediasoup(),
{
    let list = nothing();
    let list = and(list, "mediasoup.num_workers", DefaultValue::Number(2));
    let list = and(list, "mediasoup.listen_ip", DefaultValue::Text("0.0.0.0".to_owned()));
    let list = and(list, "mediasoup.announced_ip", DefaultValue::Text("127.0.0.1".to_owned()));
    let list = and(list, "mediasoup.rtc_min_port", DefaultValue::Number(40000));
    let list = and(list, "mediasoup.rtc_max_port", DefaultValue::Number(49999));
    list
}

fn turn_defaults() -> (r: Vec<(String, DefaultValue)>)
    ensures
        default_views(r@) == spec_turn(),
{
    let list = nothing();
    let list = and(list, "turn.url", DefaultValue::Nothing);
    let list = and(list, "turn.username", DefaultValue::Nothing);
    let list = and(list, "turn.password", DefaultValue::Nothing);
    let list = and(list, "turn.force_relay", DefaultValue::Flag(false));
    list
}

fn recognition_defaults(service: &str) -> (r: Vec<(String, DefaultValue)>)
    ensures
        default_views(r@) == spec_recognition(service@),
{
    let table: String = lowered(service);
    let list = nothing();
    let model: String = cat2(table.as_str(), "-sonnet-4-5-20250929");
    let key: String = cat2(table.as_str(), ".model");
    let list = and(list, key.as_str(), DefaultValue::Text(model));
    let key: String = cat2(table.as_str(), ".max_tokens");
    let list = and(list, key.as_str(), DefaultValue::Number(4096));
    list
}

fn oauth_defaults() -> (r: Vec<(String, DefaultValue)>)
    ensures
        default_views(r@) == spec_oauth(),
{
    let list = nothing();
    let list = and(list, "oauth.base_url", DefaultValue::Text("http://localhost:5001".to_owned()));
    let list = and(list, "oauth.google.client_id", DefaultValue::Text("".to_owned()));
    let list = and(list, "oauth.google.client_secret", DefaultValue::Text("".to_owned()));
    let list = and(list, "oauth.facebook.client_id", DefaultValue::Text("".to_owned()));
    let list = and(list, "oauth.facebook.client_secret", DefaultValue::Text("".to_owned()));
    let list = and(list, "oauth.github.client_id", DefaultValue::Text("".to_owned()));
    let list = and(list, "oauth.github.client_secret", DefaultValue::Text("".to_owned()));
    let list = and(list, "oauth.linkedin.client_id", DefaultValue::Text("".to_owned()));
    let list = and(list, "oauth.linkedin.client_secret", DefaultValue::Text("".to_owned()));
    let list = and(list, "oauth.microsoft.client_id", DefaultValue::Text("".to_owned()));
    let list = and(list, "oauth.microsoft.client_secret", DefaultValue::Text("".to_owned()));
    list
}

fn stripe_defaults() -> (r: Vec<(String, DefaultValue)>)
    ensures
        default_views(r@) == spec_stripe(),
{
    let list = nothing();
    let list = and(list, "stripe.secret_key", DefaultValue::Text("".to_owned()));
    let list = and(list, "stripe.publishable_key", DefaultValue::Text("".to_owned()));
    let list = and(list, "stripe.webhook_secret", DefaultValue::Text("".to_owned()));
    let list = and(list, "stripe.price_pro", DefaultValue::Text("".to_owned()));
    let list = and(list, "stripe.price_business", DefaultValue::Text("".to_owned()));
    list
}

fn giphy_defaults() -> (r: Vec<(String, DefaultValue)>)
    ensures
        default_views(r@) == spec_giphy(),
{
    let list = nothing();
    let list = and(list, "giphy.api_key", DefaultValue::Text("".to_owned()));
    list
}

fn transcription_defaults() -> (r: Vec<(String, DefaultValue)>)
    ensures
        default_views(r@) == spec_transcription(),
{
    let list = nothing();
    let list = and(list, "transcription.enabled", DefaultValue::Flag(false));
    let list = and(list, "transcription.backend", DefaultValue::Text("local_whisper".to_owned()));
    let list = and(
        list,
        "transcription.whisper_model_path",
        DefaultValue::Text("models/ggml-base.en.bin".to_owned()),
    );
    let list = and(
        list,
        "transcription.onnx_model_path",
        DefaultValue::Text("models/canary-1b-v2".to_owned()),
    );
    let list = and(
        list,
        "transcription.vad_model_path",
        DefaultValue::Text("models/silero_vad.onnx".to_owned()),
    );
    let list = and(list, "transcription.vad_start_threshold", DefaultValue::Decimal("0.5"));
    let list = and(list, "transcription.vad_end_threshold", DefaultValue::Decimal("0.35"));
    let list = and(list, "transcription.vad_min_speech_frames", DefaultValue::Number(3));
    let list = and(list, "transcription.vad_min_silence_frames", DefaultValue::Number(15));
    let list = and(list, "transcription.vad_pre_speech_pad_frames", DefaultValue::Number(10));
    let list = and(list, "transcription.max_speech_duration_secs", DefaultValue::Decimal("30.0"));
    list
}

/// What every setting that has a default is where nothing is configured, given
/// the name of the service that recognizes documents.
pub fn defaults(service: &str) -> (r: Vec<(String, DefaultValue)>)
    ensures
        default_views(r@) == all_defaults(service@),
{
    let list: Vec<(String, DefaultValue)> = app_defaults();
    let list: Vec<(String, DefaultValue)> = both(list, database_defaults());
    let list: Vec<(String, DefaultValue)> = both(list, jwt_defaults());
    let list: Vec<(String, DefaultValue)> = both(list, redis_defaults());
    let list: Vec<(String, DefaultValue)> = both(list, s3_defaults());
    let list: Vec<(String, DefaultValue)> = both(list, mediasoup_defaults());
    let list: Vec<(String, DefaultValue)> = both(list, turn_defaults());
    let list: Vec<(String, DefaultValue)> = both(list, recognition_defaults(service));
    let list: Vec<(String, DefaultValue)> = both(list, oauth_defaults());
    let list: Vec<(String, DefaultValue)> = both(list, stripe_defaults());
    let list: Vec<(String, DefaultValue)> = both(list, giphy_defaults());
    let list: Vec<(String, DefaultValue)> = both(list, transcription_defaults());
    list
}

/// The files that settings are read from, in the order in which the later
/// override the earlier; neither has to be there.
pub const CONFIG_FILES: [&'static str; 2] = ["config/default", "config/local"];

/// What the environment's names for settings begin with; they override all
/// files.
pub const ENV_PREFIX: &'static str = "ROOMLER";

/// What separates the parts of a setting's name in the environment.
pub const ENV_SEPARATOR: &'static str = "__";

/// The services that one can sign in through are offered where one of them is
/// configured.
pub open spec fn offers_oauth(s: OAuthSettings) -> bool {
    s.google.client_id@.len() > 0 || s.facebook.client_id@.len() > 0 || s.github.client_id@.len()
        > 0 || s.linkedin.client_id@.len() > 0 || s.microsoft.client_id@.len() > 0
}

/// Whether the services that one can sign in through are offered.
pub fn oauth_enabled(s: &OAuthSettings) -> (r: bool)
    ensures
        r == offers_oauth(*s),
{
    !s.google.client_id.as_str().is_empty() || !s.facebook.client_id.as_str().is_empty()
        || !s.github.client_id.as_str().is_empty() || !s.linkedin.client_id.as_str().is_empty()
        || !s.microsoft.client_id.as_str().is_empty()
}

/// Whether pictures are offered: where there is a key for them.
pub fn giphy_enabled(s: &GiphySettings) -> (r: bool)
    ensures
        r == (s.api_key@.len() > 0),
{
    !s.api_key.as_str().is_empty()
}

/// What came of looking for the model of a transcription backend.
#[derive(Debug, Clone, Copy, PartialEq, Eq, Structural)]
pub enum ModelState {
    /// None is configured.
    Unset,
    /// It is not where it is configured to be.
    Missing,
    /// It cannot be loaded.
    Broken,
    /// It is loaded.
    Loaded,
}

/// The name of the Whisper backend.
pub const WHISPER: &'static str = "whisper";

/// The name of the Canary backend.
pub const CANARY: &'static str = "canary";

/// The transcription backends that are there, and the one that is used unless
/// another is asked for.
#[derive(Debug)]
#[allow(missing_docs)]
pub struct Backends {
    pub whisper: bool,
    pub canary: bool,
    pub default_backend: String,
}

/// The name of a backend by what the settings call it.
pub open spec fn backend_named(name: Seq<char>) -> Seq<char> {
    if name == "local_whisper"@ {
        WHISPER@
    } else if name == "local_onnx"@ {
        CANARY@
    } else {
        name
    }
}

/// The transcription backends that are there; it is an error where none is.
pub fn create_transcription_engine(
    s: &TranscriptionSettings,
    whisper: ModelState,
    onnx: ModelState,
) -> (r: Result<Backends, &'static str>)
    ensures
        r is Ok <==> whisper == ModelState::Loaded || onnx == ModelState::Loaded,
        match r {
            Ok(b) => {
                &&& b.whisper == (whisper == ModelState::Loaded)
                &&& b.canary == (onnx == ModelState::Loaded)
                &&& b.default_backend@ == backend_named(s.backend@)
            },
            Err(m) => m@
                == "No ASR backends available — check model paths and feature flags"@,
        },
{
    let has_whisper: bool = whisper == ModelState::Loaded;
    let has_canary: bool = onnx == ModelState::Loaded;
    if !has_whisper && !has_canary {
        return Err("No ASR backends available — check model paths and feature flags");
    }
    let default_backend: String = if crate::text::same(s.backend.as_str(), "local_whisper") {
        WHISPER.to_owned()
    } else if crate::text::same(s.backend.as_str(), "local_onnx") {
        CANARY.to_owned()
    } else {
        s.backend.clone()
    };
    Ok(Backends { whisper: has_whisper, canary: has_canary, default_backend })
}

} // verus!
