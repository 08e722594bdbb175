//! What the server starts with: which defaults it has, when it refuses to
//! start, what it warns of, and how its collections are indexed.
use vstd::prelude::*;
use crate::indexes::{Collection, Order, Promise, all_collections, indexes_of, spec_name};
use crate::settings::{
    DefaultView,
    OAuthSettings,
    all_defaults,
    backend_named,
    offers_oauth,
    spec_app,
    spec_database,
    spec_giphy,
    spec_jwt,
    spec_mediasoup,
    spec_oauth,
    spec_recognition,
    spec_redis,
    spec_s3,
    spec_stripe,
    spec_transcription,
    spec_turn,
};
use crate::startup::{Alarm, DEFAULT_SECRET, Posture, Refusal, alarms, refusal};
use crate::text::{lower, split, trim};

verus! {

/// The server refuses to start exactly where it runs for real and the secret
/// that everyone knows is its own, or is among those that it still accepts.
pub proof fn the_known_secret_is_refused(p: Posture)
    ensures
        refusal(p) == Some(Refusal::KnownSecret) <==> p.environment@ == "production"@
            && p.jwt_secret@ == "change-me-in-production"@,
        refusal(p) == Some(Refusal::KnownPreviousSecret) <==> p.environment@ == "production"@
            && p.jwt_secret@ != "change-me-in-production"@ && exists|i: int|
            0 <= i < split(p.previous_secrets@, ',').len() && trim(
                #[trigger] split(p.previous_secrets@, ',')[i],
            ) == "change-me-in-production"@,
        refusal(p) is Some ==> p.environment@ == "production"@,
{
}

/// The server warns of each thing exactly where it is so: of the known secret,
/// of the known secret among the earlier ones, of a frontend that only a
/// developer reaches where it runs for real, and of a key for payments without
/// both prices.
pub proof fn each_warning_has_its_reason(p: Posture)
    ensures
        alarms(p).contains(Alarm::KnownSecret) <==> p.jwt_secret@ == "change-me-in-production"@,
        alarms(p).contains(Alarm::KnownPreviousSecret) <==> exists|i: int|
            0 <= i < split(p.previous_secrets@, ',').len() && trim(
                #[trigger] split(p.previous_secrets@, ',')[i],
            ) == "change-me-in-production"@,
        alarms(p).contains(Alarm::DevelopmentFrontend) <==> p.environment@ == "production"@
            && p.frontend_url@ == p.default_frontend_url@,
        alarms(p).contains(Alarm::StripeWithoutPrices) <==> p.stripe_secret_key@.len() > 0 && (
        p.stripe_price_pro@.len() == 0 || p.stripe_price_business@.len() == 0),
        alarms(p).no_duplicates(),
{
    broadcast use vstd::seq_lib::group_seq_properties;

    let a = if crate::startup::secret_known(p) {
        seq![Alarm::KnownSecret]
    } else {
        seq![]
    };
    let b = if crate::startup::previous_known(p) {
        a.push(Alarm::KnownPreviousSecret)
    } else {
        a
    };
    let c = if crate::startup::links_lead_nowhere(p) {
        b.push(Alarm::DevelopmentFrontend)
    } else {
        b
    };
    assert(crate::startup::secret_known(p) ==> a[0] == Alarm::KnownSecret);
    assert forall|x: Alarm| a.contains(x) implies x == Alarm::KnownSecret by {}
    assert forall|x: Alarm| b.contains(x) <==> a.contains(x) || (
    crate::startup::previous_known(p) && x == Alarm::KnownPreviousSecret) by {}
    assert forall|x: Alarm| c.contains(x) <==> b.contains(x) || (
    crate::startup::links_lead_nowhere(p) && x == Alarm::DevelopmentFrontend) by {}
}

/// What the server says names the setting that is to be changed.
pub proof fn warnings_name_the_setting(r: Refusal, a: Alarm)
    ensures
        r == Refusal::KnownSecret ==> r.spec_message()@
            == "Refusing to start: app.environment=production but the JWT secret is still the built-in default — set ROOMLER__JWT__SECRET."@,
        r == Refusal::KnownPreviousSecret ==> r.spec_message()@
            == "Refusing to start: app.environment=production but the built-in default secret is listed in ROOMLER__JWT__PREVIOUS_SECRETS — tokens signed with it are still accepted, so this is not a rotation."@,
        a == Alarm::KnownSecret ==> a.spec_message()@
            == "JWT secret is the built-in default \"change-me-in-production\" — set ROOMLER__JWT__SECRET before exposing this server."@,
        a == Alarm::KnownPreviousSecret ==> a.spec_message()@
            == "The built-in default secret is listed in ROOMLER__JWT__PREVIOUS_SECRETS — tokens signed with it are still accepted."@,
        a == Alarm::DevelopmentFrontend ==> a.spec_message()@
            == "app.environment=production but app.frontend_url is still the built-in development default. OAuth returns, invitation and activation links, the CORS origin policy and the SERVER baked into /api/setup/install.{sh,ps1} all resolve from it - set ROOMLER__APP__FRONTEND_URL to this deployment's public URL."@,
        a == Alarm::StripeWithoutPrices ==> a.spec_message()@
            == "Stripe secret key is set but price_pro/price_business is empty — checkout WILL fail; set ROOMLER__STRIPE__PRICE_PRO and ROOMLER__STRIPE__PRICE_BUSINESS."@,
{
}

/// The secret that is used where none is configured is the one that the server
/// knows not to be one.
pub proof fn the_default_secret_is_the_known_one()
    ensures
        spec_jwt().contains(("jwt.secret"@, DefaultView::Text(DEFAULT_SECRET@))),
{
    assert(spec_jwt()[0] == ("jwt.secret"@, DefaultView::Text(DEFAULT_SECRET@)));
}

/// Signing in through other services is offered exactly where the server is
/// known to one of them.
pub proof fn services_are_offered_where_configured(s: OAuthSettings)
    ensures
        s.google.client_id@.len() > 0 ==> offers_oauth(s),
        s.facebook.client_id@.len() > 0 ==> offers_oauth(s),
        s.github.client_id@.len() > 0 ==> offers_oauth(s),
        s.linkedin.client_id@.len() > 0 ==> offers_oauth(s),
        s.microsoft.client_id@.len() > 0 ==> offers_oauth(s),
        s.google.client_id@.len() == 0 && s.facebook.client_id@.len() == 0
            && s.github.client_id@.len() == 0 && s.linkedin.client_id@.len() == 0
            && s.microsoft.client_id@.len() == 0 ==> !offers_oauth(s),
{
}

/// The local backends go by the names of their models, and every other by the
/// name that the settings give it.
pub proof fn backends_go_by_their_names(name: Seq<char>)
    ensures
        name == "local_whisper"@ ==> backend_named(name) == "whisper"@,
        name == "local_onnx"@ ==> backend_named(name) == "canary"@,
        name != "local_whisper"@ && name != "local_onnx"@ ==> backend_named(name) == name,
{
    reveal_strlit("local_whisper");
    reveal_strlit("local_onnx");
    assert("local_whisper"@.len() != "local_onnx"@.len());
}

/// Where nothing is configured of where it listens, every
/// setting has its default.
pub proof fn app_has_its_defaults()
    ensures
        spec_app().len() == 3,
        spec_app().contains(("app.host"@, DefaultView::Text("0.0.0.0"@))),
        spec_app().contains(("app.port"@, DefaultView::Number(3000))),
        spec_app().contains(("app.cors_origins"@, DefaultView::NoTexts)),
{
    assert(spec_app()[0] == ("app.host"@, DefaultView::Text("0.0.0.0"@)));
    assert(spec_app()[1] == ("app.port"@, DefaultView::Number(3000)));
    assert(spec_app()[2] == ("app.cors_origins"@, DefaultView::NoTexts));
}

/// Where nothing is configured of its database, every
/// setting has its default.
pub proof fn database_has_its_defaults()
    ensures
        spec_database().len() == 2,
        spec_database().contains(
            ("database.url"@, DefaultView::Text("mongodb://localhost:27019"@)),
        ),
        spec_database().contains(("database.name"@, DefaultView::Text("roomler2"@))),
{
    assert(spec_database()[0]
        == ("database.url"@, DefaultView::Text("mongodb://localhost:27019"@)));
    assert(spec_database()[1] == ("database.name"@, DefaultView::Text("roomler2"@)));
}

/// Where nothing is configured of its tokens, every
/// setting has its default.
pub proof fn jwt_has_its_defaults()
    ensures
        spec_jwt().len() == 4,
        spec_jwt().contains(("jwt.secret"@, DefaultView::Text("change-me-in-production"@))),
        spec_jwt().contains(("jwt.access_token_ttl_secs"@, DefaultView::Number(3600))),
        spec_jwt().contains(("jwt.refresh_token_ttl_secs"@, DefaultView::Number(604800))),
        spec_jwt().contains(("jwt.issuer"@, DefaultView::Text("roomler2"@))),
{
    assert(spec_jwt()[0] == ("jwt.secret"@, DefaultView::Text("change-me-in-production"@)));
    assert(spec_jwt()[1] == ("jwt.access_token_ttl_secs"@, DefaultView::Number(3600)));
    assert(spec_jwt()[2] == ("jwt.refresh_token_ttl_secs"@, DefaultView::Number(604800)));
    assert(spec_jwt()[3] == ("jwt.issuer"@, DefaultView::Text("roomler2"@)));
}

/// Where nothing is configured of its cache, every
/// setting has its default.
pub proof fn redis_has_its_defaults()
    ensures
        spec_redis().len() == 1,
        spec_redis().contains(("redis.url"@, DefaultView::Text("redis://127.0.0.1:6379"@))),
{
    assert(spec_redis()[0] == ("redis.url"@, DefaultView::Text("redis://127.0.0.1:6379"@)));
}

/// Where nothing is configured of where files go, every
/// setting has its default.
pub proof fn s3_has_its_defaults()
    ensures
        spec_s3().len() == 5,
        spec_s3().contains(("s3.endpoint"@, DefaultView::Text("http://localhost:9000"@))),
        spec_s3().contains(("s3.access_key"@, DefaultView::Text("minioadmin"@))),
        spec_s3().contains(("s3.secret_key"@, DefaultView::Text("minioadmin"@))),
        spec_s3().contains(("s3.bucket"@, DefaultView::Text("roomler2"@))),
        spec_s3().contains(("s3.region"@, DefaultView::Text("us-east-1"@))),
{
    assert(spec_s3()[0] == ("s3.endpoint"@, DefaultView::Text("http://localhost:9000"@)));
    assert(spec_s3()[1] == ("s3.access_key"@, DefaultView::Text("minioadmin"@)));
    assert(spec_s3()[2] == ("s3.secret_key"@, DefaultView::Text("minioadmin"@)));
    assert(spec_s3()[3] == ("s3.bucket"@, DefaultView::Text("roomler2"@)));
    assert(spec_s3()[4] == ("s3.region"@, DefaultView::Text("us-east-1"@)));
}

/// Where nothing is configured of media, every
/// setting has its default.
pub proof fn mediasoup_has_its_defaults()
    ensures
        spec_mediasoup().len() == 5,
        spec_mediasoup().contains(("mediasoup.num_workers"@, DefaultView::Number(2))),
        spec_mediasoup().contains(("mediasoup.listen_ip"@, DefaultView::Text("0.0.0.0"@))),
        spec_mediasoup().contains(("mediasoup.announced_ip"@, DefaultView::Text("127.0.0.1"@))),
        spec_mediasoup().contains(("mediasoup.rtc_min_port"@, DefaultView::Number(40000))),
        spec_mediasoup().contains(("mediasoup.rtc_max_port"@, DefaultView::Number(49999))),
{
    assert(spec_mediasoup()[0] == ("mediasoup.num_workers"@, DefaultView::Number(2)));
    assert(spec_mediasoup()[1] == ("mediasoup.listen_ip"@, DefaultView::Text("0.0.0.0"@)));
    assert(spec_mediasoup()[2] == ("mediasoup.announced_ip"@, DefaultView::Text("127.0.0.1"@)));
    assert(spec_mediasoup()[3] == ("mediasoup.rtc_min_port"@, DefaultView::Number(40000)));
    assert(spec_mediasoup()[4] == ("mediasoup.rtc_max_port"@, DefaultView::Number(49999)));
}

/// Where nothing is configured of relays, every
/// setting has its default.
pub proof fn turn_has_its_defaults()
    ensures
        spec_turn().len() == 4,
        spec_turn().contains(("turn.url"@, DefaultView::Nothing)),
        spec_turn().contains(("turn.username"@, DefaultView::Nothing)),
        spec_turn().contains(("turn.password"@, DefaultView::Nothing)),
        spec_turn().contains(("turn.force_relay"@, DefaultView::Flag(false))),
{
    assert(spec_turn()[0] == ("turn.url"@, DefaultView::Nothing));
    assert(spec_turn()[1] == ("turn.username"@, DefaultView::Nothing));
    assert(spec_turn()[2] == ("turn.password"@, DefaultView::Nothing));
    assert(spec_turn()[3] == ("turn.force_relay"@, DefaultView::Flag(false)));
}

/// Where nothing is configured of the service that recognizes documents, every
/// setting has its default.
pub proof fn recognition_has_its_defaults(service: Seq<char>)
    ensures
        spec_recognition(service).len() == 2,
        spec_recognition(service).contains(
            (
                lower(service) + ".model"@,
                DefaultView::Text(lower(service) + "-sonnet-4-5-20250929"@),
            ),
        ),
        spec_recognition(service).contains(
            (lower(service) + ".max_tokens"@, DefaultView::Number(4096)),
        ),
{
    assert(spec_recognition(service)[0]
        == (
        lower(service) + ".model"@,
        DefaultView::Text(lower(service) + "-sonnet-4-5-20250929"@),
    ));
    assert(spec_recognition(service)[1]
        == (lower(service) + ".max_tokens"@, DefaultView::Number(4096)));
}

/// Where nothing is configured of the services to sign in through, every
/// setting has its default.
pub proof fn oauth_has_its_defaults()
    ensures
        spec_oauth().len() == 11,
        spec_oauth().contains(("oauth.base_url"@, DefaultView::Text("http://localhost:5001"@))),
        spec_oauth().contains(("oauth.google.client_id"@, DefaultView::Text(""@))),
        spec_oauth().contains(("oauth.google.client_secret"@, DefaultView::Text(""@))),
        spec_oauth().contains(("oauth.facebook.client_id"@, DefaultView::Text(""@))),
        spec_oauth().contains(("oauth.facebook.client_secret"@, DefaultView::Text(""@))),
        spec_oauth().contains(("oauth.github.client_id"@, DefaultView::Text(""@))),
        spec_oauth().contains(("oauth.github.client_secret"@, DefaultView::Text(""@))),
        spec_oauth().contains(("oauth.linkedin.client_id"@, DefaultView::Text(""@))),
        spec_oauth().contains(("oauth.linkedin.client_secret"@, DefaultView::Text(""@))),
        spec_oauth().contains(("oauth.microsoft.client_id"@, DefaultView::Text(""@))),
        spec_oauth().contains(("oauth.microsoft.client_secret"@, DefaultView::Text(""@))),
{
    assert(spec_oauth()[0] == ("oauth.base_url"@, DefaultView::Text("http://localhost:5001"@)));
    assert(spec_oauth()[1] == ("oauth.google.client_id"@, DefaultView::Text(""@)));
    assert(spec_oauth()[2] == ("oauth.google.client_secret"@, DefaultView::Text(""@)));
    assert(spec_oauth()[3] == ("oauth.facebook.client_id"@, DefaultView::Text(""@)));
    assert(spec_oauth()[4] == ("oauth.facebook.client_secret"@, DefaultView::Text(""@)));
    assert(spec_oauth()[5] == ("oauth.github.client_id"@, DefaultView::Text(""@)));
    assert(spec_oauth()[6] == ("oauth.github.client_secret"@, DefaultView::Text(""@)));
    assert(spec_oauth()[7] == ("oauth.linkedin.client_id"@, DefaultView::Text(""@)));
    assert(spec_oauth()[8] == ("oauth.linkedin.client_secret"@, DefaultView::Text(""@)));
    assert(spec_oauth()[9] == ("oauth.microsoft.client_id"@, DefaultView::Text(""@)));
    assert(spec_oauth()[10] == ("oauth.microsoft.client_secret"@, DefaultView::Text(""@)));
}

/// Where nothing is configured of payments, every
/// setting has its default.
pub proof fn stripe_has_its_defaults()
    ensures
        spec_stripe().len() == 5,
        spec_stripe().contains(("stripe.secret_key"@, DefaultView::Text(""@))),
        spec_stripe().contains(("stripe.publishable_key"@, DefaultView::Text(""@))),
        spec_stripe().contains(("stripe.webhook_secret"@, DefaultView::Text(""@))),
        spec_stripe().contains(("stripe.price_pro"@, DefaultView::Text(""@))),
        spec_stripe().contains(("stripe.price_business"@, DefaultView::Text(""@))),
{
    assert(spec_stripe()[0] == ("stripe.secret_key"@, DefaultView::Text(""@)));
    assert(spec_stripe()[1] == ("stripe.publishable_key"@, DefaultView::Text(""@)));
    assert(spec_stripe()[2] == ("stripe.webhook_secret"@, DefaultView::Text(""@)));
    assert(spec_stripe()[3] == ("stripe.price_pro"@, DefaultView::Text(""@)));
    assert(spec_stripe()[4] == ("stripe.price_business"@, DefaultView::Text(""@)));
}

/// Where nothing is configured of pictures, every
/// setting has its default.
pub proof fn giphy_has_its_defaults()
    ensures
        spec_giphy().len() == 1,
        spec_giphy().contains(("giphy.api_key"@, DefaultView::Text(""@))),
{
    assert(spec_giphy()[0] == ("giphy.api_key"@, DefaultView::Text(""@)));
}

/// Where nothing is configured of transcriptions, every
/// setting has its default.
pub proof fn transcription_has_its_defaults()
    ensures
        spec_transcription().len() == 11,
        spec_transcription().contains(("transcription.enabled"@, DefaultView::Flag(false))),
        spec_transcription().contains(
            ("transcription.backend"@, DefaultView::Text("local_whisper"@)),
        ),
        spec_transcription().contains(
            ("transcription.whisper_model_path"@, DefaultView::Text("models/ggml-base.en.bin"@)),
        ),
        spec_transcription().contains(
            ("transcription.onnx_model_path"@, DefaultView::Text("models/canary-1b-v2"@)),
        ),
        spec_transcription().contains(
            ("transcription.vad_model_path"@, DefaultView::Text("models/silero_vad.onnx"@)),
        ),
        spec_transcription().contains(
            ("transcription.vad_start_threshold"@, DefaultView::Decimal("0.5"@)),
        ),
        spec_transcription().contains(
            ("transcription.vad_end_threshold"@, DefaultView::Decimal("0.35"@)),
        ),
        spec_transcription().contains(
            ("transcription.vad_min_speech_frames"@, DefaultView::Number(3)),
        ),
        spec_transcription().contains(
            ("transcription.vad_min_silence_frames"@, DefaultView::Number(15)),
        ),
        spec_transcription().contains(
            ("transcription.vad_pre_speech_pad_frames"@, DefaultView::Number(10)),
        ),
        spec_transcription().contains(
            ("transcription.max_speech_duration_secs"@, DefaultView::Decimal("30.0"@)),
        ),
{
    assert(spec_transcription()[0] == ("transcription.enabled"@, DefaultView::Flag(false)));
    assert(spec_transcription()[1]
        == ("transcription.backend"@, DefaultView::Text("local_whisper"@)));
    assert(spec_transcription()[2]
        == ("transcription.whisper_model_path"@, DefaultView::Text("models/ggml-base.en.bin"@)));
    assert(spec_transcription()[3]
        == ("transcription.onnx_model_path"@, DefaultView::Text("models/canary-1b-v2"@)));
    assert(spec_transcription()[4]
        == ("transcription.vad_model_path"@, DefaultView::Text("models/silero_vad.onnx"@)));
    assert(spec_transcription()[5]
        == ("transcription.vad_start_threshold"@, DefaultView::Decimal("0.5"@)));
    assert(spec_transcription()[6]
        == ("transcription.vad_end_threshold"@, DefaultView::Decimal("0.35"@)));
    assert(spec_transcription()[7]
        == ("transcription.vad_min_speech_frames"@, DefaultView::Number(3)));
    assert(spec_transcription()[8]
        == ("transcription.vad_min_silence_frames"@, DefaultView::Number(15)));
    assert(spec_transcription()[9]
        == ("transcription.vad_pre_speech_pad_frames"@, DefaultView::Number(10)));
    assert(spec_transcription()[10]
        == ("transcription.max_speech_duration_secs"@, DefaultView::Decimal("30.0"@)));
}

/// The defaults of all the settings are those of each part.
pub proof fn every_part_has_defaults(service: Seq<char>, d: (Seq<char>, DefaultView))
    ensures
        all_defaults(service).contains(d) <==> {
            ||| spec_app().contains(d)
            ||| spec_database().contains(d)
            ||| spec_jwt().contains(d)
            ||| spec_redis().contains(d)
            ||| spec_s3().contains(d)
            ||| spec_mediasoup().contains(d)
            ||| spec_turn().contains(d)
            ||| spec_recognition(service).contains(d)
            ||| spec_oauth().contains(d)
            ||| spec_stripe().contains(d)
            ||| spec_giphy().contains(d)
            ||| spec_transcription().contains(d)
        },
{
    broadcast use vstd::seq_lib::group_seq_properties;

    let a1 = spec_app() + spec_database();
    let a2 = a1 + spec_jwt();
    let a3 = a2 + spec_redis();
    let a4 = a3 + spec_s3();
    let a5 = a4 + spec_mediasoup();
    let a6 = a5 + spec_turn();
    let a7 = a6 + spec_recognition(service);
    let a8 = a7 + spec_oauth();
    let a9 = a8 + spec_stripe();
    let a10 = a9 + spec_giphy();
    assert(a1.contains(d) <==> spec_app().contains(d) || spec_database().contains(d));
    assert(a2.contains(d) <==> a1.contains(d) || spec_jwt().contains(d));
    assert(a3.contains(d) <==> a2.contains(d) || spec_redis().contains(d));
    assert(a4.contains(d) <==> a3.contains(d) || spec_s3().contains(d));
    assert(a5.contains(d) <==> a4.contains(d) || spec_mediasoup().contains(d));
    assert(a6.contains(d) <==> a5.contains(d) || spec_turn().contains(d));
    assert(a7.contains(d) <==> a6.contains(d) || spec_recognition(service).contains(d));
    assert(a8.contains(d) <==> a7.contains(d) || spec_oauth().contains(d));
    assert(a9.contains(d) <==> a8.contains(d) || spec_stripe().contains(d));
    assert(a10.contains(d) <==> a9.contains(d) || spec_giphy().contains(d));
}

/// Every collection is listed, and goes by its own name.
pub proof fn every_collection_is_listed(c: Collection)
    ensures
        all_collections().len() == 16,
        all_collections().contains(c),
        c == Collection::Tenants ==> spec_name(c)@ == "tenants"@,
        c == Collection::Users ==> spec_name(c)@ == "users"@,
        c == Collection::TenantMembers ==> spec_name(c)@ == "tenant_members"@,
        c == Collection::Roles ==> spec_name(c)@ == "roles"@,
        c == Collection::Rooms ==> spec_name(c)@ == "rooms"@,
        c == Collection::RoomMembers ==> spec_name(c)@ == "room_members"@,
        c == Collection::Messages ==> spec_name(c)@ == "messages"@,
        c == Collection::Reactions ==> spec_name(c)@ == "reactions"@,
        c == Collection::Recordings ==> spec_name(c)@ == "recordings"@,
        c == Collection::Files ==> spec_name(c)@ == "files"@,
        c == Collection::Invites ==> spec_name(c)@ == "invites"@,
        c == Collection::BackgroundTasks ==> spec_name(c)@ == "background_tasks"@,
        c == Collection::AuditLogs ==> spec_name(c)@ == "audit_logs"@,
        c == Collection::Notifications ==> spec_name(c)@ == "notifications"@,
        c == Collection::CustomEmojis ==> spec_name(c)@ == "custom_emojis"@,
        c == Collection::ActivationCodes ==> spec_name(c)@ == "activation_codes"@,
{
    let all = all_collections();
    match c {
        Collection::Tenants => assert(all[0] == c),
        Collection::Users => assert(all[1] == c),
        Collection::TenantMembers => assert(all[2] == c),
        Collection::Roles => assert(all[3] == c),
        Collection::Rooms => assert(all[4] == c),
        Collection::RoomMembers => assert(all[5] == c),
        Collection::Messages => assert(all[6] == c),
        Collection::Reactions => assert(all[7] == c),
        Collection::Recordings => assert(all[8] == c),
        Collection::Files => assert(all[9] == c),
        Collection::Invites => assert(all[10] == c),
        Collection::BackgroundTasks => assert(all[11] == c),
        Collection::AuditLogs => assert(all[12] == c),
        Collection::Notifications => assert(all[13] == c),
        Collection::CustomEmojis => assert(all[14] == c),
        Collection::ActivationCodes => assert(all[15] == c),
    }
}

/// A collection has an index on these keys, in this order, that promises this.
pub open spec fn indexed(c: Collection, keys: Seq<(Seq<char>, Order)>, promise: Promise) -> bool {
    exists|i: int|
        0 <= i < indexes_of(c).len() && (#[trigger] indexes_of(c)[i]).0 == keys
            && indexes_of(c)[i].1 == promise
}

/// How the documents of `tenants` are found, and what is promised of them.
pub proof fn tenants_are_indexed()
    ensures
        indexes_of(Collection::Tenants).len() == 2,
        indexed(Collection::Tenants, seq![("slug"@, Order::Ascending)], Promise::Unique),
        indexed(Collection::Tenants, seq![("owner_id"@, Order::Ascending)], Promise::Plain),
{
    let all = indexes_of(Collection::Tenants);
    assert(all[0].0.len() == 1);
    assert(all[1].0.len() == 1);
}

/// How the documents of `users` are found, and what is promised of them.
pub proof fn users_are_indexed()
    ensures
        indexes_of(Collection::Users).len() == 3,
        indexed(Collection::Users, seq![("email"@, Order::Ascending)], Promise::Unique),
        indexed(Collection::Users, seq![("username"@, Order::Ascending)], Promise::Unique),
        indexed(
            Collection::Users,
            seq![("display_name"@, Order::Text), ("username"@, Order::Text)],
            Promise::Plain,
        ),
{
    let all = indexes_of(Collection::Users);
    assert(all[0].0.len() == 1);
    assert(all[1].0.len() == 1);
    assert(all[2].0.len() == 2);
}

/// How the documents of `tenant_members` are found, and what is promised of them.
pub proof fn tenant_members_are_indexed()
    ensures
        indexes_of(Collection::TenantMembers).len() == 2,
        indexed(
            Collection::TenantMembers,
            seq![("tenant_id"@, Order::Ascending), ("user_id"@, Order::Ascending)],
            Promise::Unique,
        ),
        indexed(Collection::TenantMembers, seq![("user_id"@, Order::Ascending)], Promise::Plain),
{
    let all = indexes_of(Collection::TenantMembers);
    assert(all[0].0.len() == 2);
    assert(all[1].0.len() == 1);
}

/// How the documents of `roles` are found, and what is promised of them.
pub proof fn roles_are_indexed()
    ensures
        indexes_of(Collection::Roles).len() == 2,
        indexed(
            Collection::Roles,
            seq![("tenant_id"@, Order::Ascending), ("name"@, Order::Ascending)],
            Promise::Unique,
        ),
        indexed(
            Collection::Roles,
            seq![("tenant_id"@, Order::Ascending), ("position"@, Order::Ascending)],
            Promise::Plain,
        ),
{
    let all = indexes_of(Collection::Roles);
    assert(all[0].0.len() == 2);
    assert(all[1].0.len() == 2);
}

/// How the documents of `rooms` are found, and what is promised of them.
pub proof fn rooms_are_indexed()
    ensures
        indexes_of(Collection::Rooms).len() == 6,
        indexed(
            Collection::Rooms,
            seq![
                ("tenant_id"@, Order::Ascending),
                ("parent_id"@, Order::Ascending),
                ("position"@, Order::Ascending),
            ],
            Promise::Plain,
        ),
        indexed(
            Collection::Rooms,
            seq![("tenant_id"@, Order::Ascending), ("path"@, Order::Ascending)],
            Promise::Unique,
        ),
        indexed(
            Collection::Rooms,
            seq![("tenant_id"@, Order::Ascending), ("name"@, Order::Ascending)],
            Promise::Plain,
        ),
        indexed(
            Collection::Rooms,
            seq![("tenant_id"@, Order::Ascending), ("is_default"@, Order::Ascending)],
            Promise::Plain,
        ),
        indexed(
            Collection::Rooms,
            seq![("meeting_code"@, Order::Ascending)],
            Promise::UniqueSparse,
        ),
        indexed(
            Collection::Rooms,
            seq![("name"@, Order::Text), ("purpose"@, Order::Text), ("tags"@, Order::Text)],
            Promise::Plain,
        ),
{
    let all = indexes_of(Collection::Rooms);
    assert(all[0].0.len() == 3);
    assert(all[1].0.len() == 2);
    assert(all[2].0.len() == 2);
    assert(all[3].0.len() == 2);
    assert(all[4].0.len() == 1);
    assert(all[5].0.len() == 3);
}

/// How the documents of `room_members` are found, and what is promised of them.
pub proof fn room_members_are_indexed()
    ensures
        indexes_of(Collection::RoomMembers).len() == 2,
        indexed(
            Collection::RoomMembers,
            seq![("room_id"@, Order::Ascending), ("user_id"@, Order::Ascending)],
            Promise::Unique,
        ),
        indexed(
            Collection::RoomMembers,
            seq![("user_id"@, Order::Ascending), ("tenant_id"@, Order::Ascending)],
            Promise::Plain,
        ),
{
    let all = indexes_of(Collection::RoomMembers);
    assert(all[0].0.len() == 2);
    assert(all[1].0.len() == 2);
}

/// How the documents of `messages` are found, and what is promised of them.
pub proof fn messages_are_indexed()
    ensures
        indexes_of(Collection::Messages).len() == 6,
        indexed(
            Collection::Messages,
            seq![("room_id"@, Order::Ascending), ("created_at"@, Order::Descending)],
            Promise::Plain,
        ),
        indexed(
            Collection::Messages,
            seq![("thread_id"@, Order::Ascending), ("created_at"@, Order::Ascending)],
            Promise::Plain,
        ),
        indexed(
            Collection::Messages,
            seq![
                ("tenant_id"@, Order::Ascending),
                ("author_id"@, Order::Ascending),
                ("created_at"@, Order::Descending),
            ],
            Promise::Plain,
        ),
        indexed(
            Collection::Messages,
            seq![("room_id"@, Order::Ascending), ("is_pinned"@, Order::Ascending)],
            Promise::Plain,
        ),
        indexed(Collection::Messages, seq![("mentions.users"@, Order::Ascending)], Promise::Plain),
        indexed(Collection::Messages, seq![("content"@, Order::Text)], Promise::Plain),
{
    let all = indexes_of(Collection::Messages);
    assert(all[0].0.len() == 2);
    assert(all[1].0.len() == 2);
    assert(all[2].0.len() == 3);
    assert(all[3].0.len() == 2);
    assert(all[4].0.len() == 1);
    assert(all[5].0.len() == 1);
}

/// How the documents of `reactions` are found, and what is promised of them.
pub proof fn reactions_are_indexed()
    ensures
        indexes_of(Collection::Reactions).len() == 1,
        indexed(
            Collection::Reactions,
            seq![
                ("message_id"@, Order::Ascending),
                ("emoji.value"@, Order::Ascending),
                ("user_id"@, Order::Ascending),
            ],
            Promise::Unique,
        ),
{
    let all = indexes_of(Collection::Reactions);
    assert(all[0].0.len() == 3);
}

/// How the documents of `recordings` are found, and what is promised of them.
pub proof fn recordings_are_indexed()
    ensures
        indexes_of(Collection::Recordings).len() == 2,
        indexed(
            Collection::Recordings,
            seq![("room_id"@, Order::Ascending), ("recording_type"@, Order::Ascending)],
            Promise::Plain,
        ),
        indexed(
            Collection::Recordings,
            seq![("tenant_id"@, Order::Ascending), ("status"@, Order::Ascending)],
            Promise::Plain,
        ),
{
    let all = indexes_of(Collection::Recordings);
    assert(all[0].0.len() == 2);
    assert(all[1].0.len() == 2);
}

/// How the documents of `files` are found, and what is promised of them.
pub proof fn files_are_indexed()
    ensures
        indexes_of(Collection::Files).len() == 4,
        indexed(
            Collection::Files,
            seq![
                ("tenant_id"@, Order::Ascending),
                ("context.context_type"@, Order::Ascending),
                ("context.entity_id"@, Order::Ascending),
            ],
            Promise::Plain,
        ),
        indexed(
            Collection::Files,
            seq![
                ("tenant_id"@, Order::Ascending),
                ("uploaded_by"@, Order::Ascending),
                ("created_at"@, Order::Descending),
            ],
            Promise::Plain,
        ),
        indexed(
            Collection::Files,
            seq![
                ("tenant_id"@, Order::Ascending),
                ("context.room_id"@, Order::Ascending),
                ("created_at"@, Order::Descending),
            ],
            Promise::Plain,
        ),
        indexed(
            Collection::Files,
            seq![
                ("external_source.provider"@, Order::Ascending),
                ("external_source.external_id"@, Order::Ascending),
            ],
            Promise::Plain,
        ),
{
    let all = indexes_of(Collection::Files);
    assert(all[0].0.len() == 3);
    assert(all[1].0.len() == 3);
    assert(all[2].0.len() == 3);
    assert(all[3].0.len() == 2);
}

/// How the documents of `invites` are found, and what is promised of them.
pub proof fn invites_are_indexed()
    ensures
        indexes_of(Collection::Invites).len() == 2,
        indexed(Collection::Invites, seq![("code"@, Order::Ascending)], Promise::Unique),
        indexed(
            Collection::Invites,
            seq![("tenant_id"@, Order::Ascending), ("status"@, Order::Ascending)],
            Promise::Plain,
        ),
{
    let all = indexes_of(Collection::Invites);
    assert(all[0].0.len() == 1);
    assert(all[1].0.len() == 2);
}

/// How the documents of `background_tasks` are found, and what is promised of them.
pub proof fn background_tasks_are_indexed()
    ensures
        indexes_of(Collection::BackgroundTasks).len() == 2,
        indexed(
            Collection::BackgroundTasks,
            seq![
                ("tenant_id"@, Order::Ascending),
                ("user_id"@, Order::Ascending),
                ("status"@, Order::Ascending),
            ],
            Promise::Plain,
        ),
        indexed(
            Collection::BackgroundTasks,
            seq![("expires_at"@, Order::Ascending)],
            Promise::Expiry(0),
        ),
{
    let all = indexes_of(Collection::BackgroundTasks);
    assert(all[0].0.len() == 3);
    assert(all[1].0.len() == 1);
}

/// How the documents of `audit_logs` are found, and what is promised of them.
pub proof fn audit_logs_are_indexed()
    ensures
        indexes_of(Collection::AuditLogs).len() == 4,
        indexed(
            Collection::AuditLogs,
            seq![("tenant_id"@, Order::Ascending), ("created_at"@, Order::Descending)],
            Promise::Plain,
        ),
        indexed(
            Collection::AuditLogs,
            seq![
                ("tenant_id"@, Order::Ascending),
                ("action"@, Order::Ascending),
                ("created_at"@, Order::Descending),
            ],
            Promise::Plain,
        ),
        indexed(
            Collection::AuditLogs,
            seq![
                ("tenant_id"@, Order::Ascending),
                ("actor_id"@, Order::Ascending),
                ("created_at"@, Order::Descending),
            ],
            Promise::Plain,
        ),
        indexed(
            Collection::AuditLogs,
            seq![("created_at"@, Order::Ascending)],
            Promise::Expiry((90 * 24 * 3600) as u64),
        ),
{
    let all = indexes_of(Collection::AuditLogs);
    assert(all[0].0.len() == 2);
    assert(all[1].0.len() == 3);
    assert(all[2].0.len() == 3);
    assert(all[3].0.len() == 1);
}

/// How the documents of `notifications` are found, and what is promised of them.
pub proof fn notifications_are_indexed()
    ensures
        indexes_of(Collection::Notifications).len() == 2,
        indexed(
            Collection::Notifications,
            seq![
                ("user_id"@, Order::Ascending),
                ("is_read"@, Order::Ascending),
                ("created_at"@, Order::Descending),
            ],
            Promise::Plain,
        ),
        indexed(
            Collection::Notifications,
            seq![("tenant_id"@, Order::Ascending), ("user_id"@, Order::Ascending)],
            Promise::Plain,
        ),
{
    let all = indexes_of(Collection::Notifications);
    assert(all[0].0.len() == 3);
    assert(all[1].0.len() == 2);
}

/// How the documents of `custom_emojis` are found, and what is promised of them.
pub proof fn custom_emojis_are_indexed()
    ensures
        indexes_of(Collection::CustomEmojis).len() == 1,
        indexed(
            Collection::CustomEmojis,
            seq![("tenant_id"@, Order::Ascending), ("name"@, Order::Ascending)],
            Promise::Unique,
        ),
{
    let all = indexes_of(Collection::CustomEmojis);
    assert(all[0].0.len() == 2);
}

/// How the documents of `activation_codes` are found, and what is promised of them.
pub proof fn activation_codes_are_indexed()
    ensures
        indexes_of(Collection::ActivationCodes).len() == 2,
        indexed(Collection::ActivationCodes, seq![("user_id"@, Order::Ascending)], Promise::Plain),
        indexed(
            Collection::ActivationCodes,
            seq![("valid_to"@, Order::Ascending)],
            Promise::Expiry(0),
        ),
{
    let all = indexes_of(Collection::ActivationCodes);
    assert(all[0].0.len() == 1);
    assert(all[1].0.len() == 1);
}

} // verus!
