//! The platforms, and what the command line does with them.

pub mod mixcloud;
pub mod soundcloud;

use vstd::prelude::*;
pub use crate::status::show_status;
use vstd::string::StringExecFns;
use crate::cli::Platform;
use crate::config::{MixcloudCredentials, SoundcloudCredentials};
use crate::flow::{AuthAction, AuthorizationFlow};
use crate::clock::Timestamp;
use crate::provider::{ProviderConfig, ProviderConfigView};
use crate::upload::{UploadMetadata, UploadStep};

verus! {

/// The provider behind `platform`, for the client that the credentials
/// describe.
pub open spec fn provider_config(
    platform: Platform,
    mixcloud: MixcloudCredentials,
    soundcloud: SoundcloudCredentials,
) -> ProviderConfigView {
    match platform {
        Platform::Mixcloud => self::mixcloud::provider_config(
            mixcloud.client_id@,
            mixcloud.client_secret@,
        ),
        Platform::Soundcloud => self::soundcloud::provider_config(
            soundcloud.client_id@,
            soundcloud.client_secret@,
        ),
    }
}

/// The provider behind `platform`.
pub fn provider_for(
    platform: Platform,
    mixcloud: &MixcloudCredentials,
    soundcloud: &SoundcloudCredentials,
) -> (config: ProviderConfig)
    ensures
        config@ == provider_config(platform, *mixcloud, *soundcloud),
{
    match platform {
        Platform::Mixcloud => self::mixcloud::MixcloudClient::provider(mixcloud),
        Platform::Soundcloud => self::soundcloud::SoundcloudClient::provider(soundcloud),
    }
}

/// Starts an authorization attempt with `platform`.
pub fn handle_auth(
    platform: Platform,
    mixcloud: &MixcloudCredentials,
    soundcloud: &SoundcloudCredentials,
) -> (r: (AuthorizationFlow, AuthAction))
    ensures
        crate::pkce::is_state_value(r.0@.state),
        r.0@.verifier is Some <==> platform is Soundcloud,
        r.0@.verifier is Some ==> crate::pkce::is_verifier(r.0@.verifier->0),
        (r.0@, r.1@) == crate::flow::begin(
            provider_config(platform, *mixcloud, *soundcloud),
            r.0@.verifier,
            r.0@.state,
        ),
{
    match platform {
        Platform::Mixcloud => self::mixcloud::MixcloudClient::authorize(mixcloud),
        Platform::Soundcloud => self::soundcloud::SoundcloudClient::authorize(soundcloud),
    }
}

/// Decides what has to happen to upload a mix to `platform` at `now`. Each
/// platform's client answers for itself.
pub fn handle_upload(
    platform: Platform,
    mixcloud: &self::mixcloud::MixcloudClient,
    soundcloud: &self::soundcloud::SoundcloudClient,
    meta: &UploadMetadata,
    now: Timestamp,
) -> (step: UploadStep)
    ensures
        ({
            let entry = match platform {
                Platform::Mixcloud => mixcloud.token_storage@.mixcloud,
                Platform::Soundcloud => soundcloud.token_storage@.soundcloud,
            };
            let plan = crate::lifecycle::plan_for(
                entry,
                provider_config(platform, mixcloud.credentials, soundcloud.credentials),
                now,
            );
            let token = match plan {
                crate::lifecycle::TokenPlanView::Use { access_token } => access_token,
                _ => Seq::empty(),
            };
            step@ == crate::upload::step_for(
                plan,
                match platform {
                    Platform::Mixcloud => self::mixcloud::upload_request(token, meta@),
                    Platform::Soundcloud => self::soundcloud::upload_request(token, meta@),
                },
            )
        }),
{
    match platform {
        Platform::Mixcloud => mixcloud.upload(meta, now),
        Platform::Soundcloud => soundcloud.upload(meta, now),
    }
}

/// The one-line report on the uploads that were made: Mixcloud's message and
/// the number of SoundCloud's track, as far as there are any, with a bar
/// between them.
pub open spec fn upload_report(mixcloud_message: Option<Seq<char>>, soundcloud_id: Option<i64>) -> Seq<
    char,
> {
    crate::upload::joined(
        (match mixcloud_message {
            Some(message) => seq!["Mixcloud: "@ + message],
            None => Seq::empty(),
        }) + (match soundcloud_id {
            Some(id) => seq!["SoundCloud: Track #"@ + crate::text::signed_decimal_text(id as int)],
            None => Seq::empty(),
        }),
        " | "@,
    )
}

/// Writes the one-line report on the uploads that were made.
pub fn upload_report_text(
    mixcloud: Option<&self::mixcloud::UploadResponse>,
    soundcloud: Option<&self::soundcloud::UploadResponse>,
) -> (s: String)
    ensures
        s@ == upload_report(
            match mixcloud {
                Some(response) => Some(response.result.message@),
                None => None,
            },
            match soundcloud {
                Some(response) => Some(response.id),
                None => None,
            },
        ),
{
    let mut results: Vec<String> = Vec::new();
    match mixcloud {
        Some(response) => {
            let mut line = String::from_str("Mixcloud: ");
            line.append(response.result.message.as_str());
            results.push(line);
        },
        None => {},
    }
    match soundcloud {
        Some(response) => {
            let mut line = String::from_str("SoundCloud: Track #");
            line.append(crate::text::signed_decimal(response.id as i128).as_str());
            results.push(line);
        },
        None => {},
    }
    assert(crate::config::texts(results@) =~= (match mixcloud {
        Some(response) => seq!["Mixcloud: "@ + response.result.message@],
        None => Seq::empty(),
    }) + (match soundcloud {
        Some(response) => seq![
            "SoundCloud: Track #"@ + crate::text::signed_decimal_text(response.id as int),
        ],
        None => Seq::empty(),
    }));
    crate::upload::join(&results, " | ")
}

/// The loopback address that redirects to `port` are sent to.
pub open spec fn loopback_redirect_uri(port: u16) -> Seq<char> {
    "http://localhost:"@ + crate::text::decimal_text(port as nat) + "/callback"@
}

/// Each provider's redirect address is the loopback address with the port on
/// which its callback is awaited.
pub proof fn lemma_redirect_uri_names_the_port(
    platform: Platform,
    mixcloud: MixcloudCredentials,
    soundcloud: SoundcloudCredentials,
)
    ensures
        provider_config(platform, mixcloud, soundcloud).redirect_uri == loopback_redirect_uri(
            provider_config(platform, mixcloud, soundcloud).port,
        ),
{
    reveal_with_fuel(crate::text::decimal_text, 5);
    reveal_strlit("http://localhost:");
    reveal_strlit("/callback");
    reveal_strlit("http://localhost:8888/callback");
    reveal_strlit("http://localhost:8889/callback");
    assert(crate::text::decimal_text(8888) =~= seq!['8', '8', '8', '8']);
    assert(crate::text::decimal_text(8889) =~= seq!['8', '8', '8', '9']);
    assert(self::mixcloud::REDIRECT_URI@ =~= loopback_redirect_uri(8888));
    assert(self::soundcloud::REDIRECT_URI@ =~= loopback_redirect_uri(8889));
}

/// Each provider listens on a port of its own, so two attempts with different
/// providers never compete for a listener.
pub proof fn lemma_ports_are_distinct(
    first: Platform,
    second: Platform,
    mixcloud: MixcloudCredentials,
    soundcloud: SoundcloudCredentials,
)
    requires
        first != second,
    ensures
        provider_config(first, mixcloud, soundcloud).port != provider_config(
            second,
            mixcloud,
            soundcloud,
        ).port,
{
}

} // verus!
