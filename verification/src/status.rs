//! The status report: what the user is told of each platform's
//! authorization.

use vstd::prelude::*;
use vstd::string::StringExecFns;
use crate::cli::Platform;
use crate::clock::{
    format_utc, truncated_quotient, truncated_remainder, utc_text, Span, Timestamp,
};
use crate::config::{texts, TokenInfo, TokenInfoView, TokenStorage, TokenStorageView};
use crate::text::{signed_decimal, signed_decimal_text};

verus! {

/// The line that says how long a token still lasts, for `left` nanoseconds.
/// Mixcloud's tokens last for weeks, so their line counts days; SoundCloud's
/// counts hours only.
pub open spec fn expiry_line(platform: Platform, left: int) -> Seq<char> {
    let seconds = truncated_quotient(left, 1_000_000_000);
    let days = truncated_quotient(seconds, 86400);
    let all_hours = truncated_quotient(seconds, 3600);
    let minutes = truncated_remainder(truncated_quotient(seconds, 60), 60);
    let hours = match platform {
        Platform::Mixcloud => truncated_remainder(all_hours, 24),
        Platform::Soundcloud => all_hours,
    };
    if platform is Mixcloud && days > 0 {
        "  Expires in: "@ + signed_decimal_text(days) + " days, "@ + signed_decimal_text(hours)
            + " hours"@
    } else if hours > 0 {
        "  Expires in: "@ + signed_decimal_text(hours) + " hours, "@ + signed_decimal_text(minutes)
            + " minutes"@
    } else if minutes > 0 {
        "  Expires in: "@ + signed_decimal_text(minutes) + " minutes"@
    } else {
        "  Expires in: <1 minute (needs refresh)"@
    }
}

/// The line that says when a token was made.
pub open spec fn created_line(created_at: Timestamp) -> Seq<char> {
    "  Token created: "@ + (match utc_text(created_at.secs, created_at.nanos) {
        Some(text) => text,
        None => "unknown"@,
    })
}

/// The command that authorizes with `platform`.
pub open spec fn auth_command(platform: Platform) -> Seq<char> {
    "dj-uploader auth "@ + platform.command_name()
}

/// The lines on an expired token: a warning, and what will or must happen.
pub open spec fn expired_lines(platform: Platform, can_refresh: bool) -> Seq<Seq<char>> {
    seq![
        "  Status: \u{26a0}\u{fe0f}  Expired or expiring soon"@,
        if can_refresh {
            "  Will auto-refresh on next upload"@
        } else {
            "  Run '"@ + auth_command(platform) + "' to re-authorize"@
        },
    ]
}

/// The lines of the report on one platform whose stored record is `entry`,
/// at `now`.
pub open spec fn platform_lines(platform: Platform, entry: Option<TokenInfoView>, now: Timestamp) -> Seq<
    Seq<char>,
> {
    match entry {
        Some(token) => seq![
            platform.display_name() + ": \u{2713} Authorized"@,
            created_line(token.created_at),
        ] + (match token.time_until_expiry_at(now) {
            Some(left) => seq![expiry_line(platform, left)] + (if token.is_expired_at(now) {
                expired_lines(platform, token.refresh_token is Some)
            } else {
                Seq::empty()
            }),
            None => seq!["  Expires: Unknown (no expiry info)"@],
        }),
        None => seq![
            platform.display_name() + ": \u{2717} Not authorized"@,
            "  Run '"@ + auth_command(platform) + "' to authorize"@,
        ],
    }
}

/// The lines of the whole report at `now`, for the storage and the place
/// where it is kept.
pub open spec fn report_lines(storage: TokenStorageView, now: Timestamp, token_path: Seq<char>) -> Seq<
    Seq<char>,
> {
    seq![""@, "=== DJ Uploader Status ==="@, ""@] + platform_lines(
        Platform::Mixcloud,
        storage.mixcloud,
        now,
    ) + seq![""@] + platform_lines(Platform::Soundcloud, storage.soundcloud, now) + seq![
        ""@,
        "Token storage: "@ + token_path,
    ]
}

/// Writes the line that says how long a token still lasts.
pub fn expiry_line_text(platform: Platform, left: Span) -> (s: String)
    ensures
        s@ == expiry_line(platform, left.nanos as int),
{
    let days: i128 = left.num_days();
    let all_hours: i128 = left.num_hours();
    let minutes: i128 = left.num_minutes() % 60;
    let hours: i128 = match platform {
        Platform::Mixcloud => all_hours % 24,
        Platform::Soundcloud => all_hours,
    };
    let count_days = match platform {
        Platform::Mixcloud => days > 0,
        Platform::Soundcloud => false,
    };
    let mut s = String::from_str("  Expires in: ");
    if count_days {
        s.append(signed_decimal(days).as_str());
        s.append(" days, ");
        s.append(signed_decimal(hours).as_str());
        s.append(" hours");
    } else if hours > 0 {
        s.append(signed_decimal(hours).as_str());
        s.append(" hours, ");
        s.append(signed_decimal(minutes).as_str());
        s.append(" minutes");
    } else if minutes > 0 {
        s.append(signed_decimal(minutes).as_str());
        s.append(" minutes");
    } else {
        s = String::from_str("  Expires in: <1 minute (needs refresh)");
    }
    assert(s@ =~= expiry_line(platform, left.nanos as int));
    s
}

/// Writes the command that authorizes with `platform` between `before` and
/// `after`.
fn command_line(before: &str, platform: Platform, after: &str) -> (s: String)
    ensures
        s@ == before@ + auth_command(platform) + after@,
{
    let mut s = String::from_str(before);
    s.append("dj-uploader auth ");
    s.append(platform.command().as_str());
    s.append(after);
    assert(s@ =~= before@ + auth_command(platform) + after@);
    s
}

/// The lines of the report on one platform at `now`.
pub fn platform_status_lines(platform: Platform, token: Option<&TokenInfo>, now: Timestamp) -> (lines:
    Vec<String>)
    ensures
        texts(lines@) == platform_lines(
            platform,
            match token {
                Some(info) => Some(info@),
                None => None,
            },
            now,
        ),
{
    let mut lines: Vec<String> = Vec::new();
    match token {
        Some(info) => {
            let mut title = platform.name();
            title.append(": \u{2713} Authorized");
            lines.push(title);
            let mut created = String::from_str("  Token created: ");
            match format_utc(info.created_at) {
                Some(text) => {
                    created.append(text.as_str());
                },
                None => {
                    created.append("unknown");
                },
            }
            lines.push(created);
            match info.time_until_expiry_at(now) {
                Some(left) => {
                    lines.push(expiry_line_text(platform, left));
                    if info.is_expired_at(now) {
                        lines.push(String::from_str("  Status: \u{26a0}\u{fe0f}  Expired or expiring soon"));
                        if info.refresh_token.is_some() {
                            lines.push(String::from_str("  Will auto-refresh on next upload"));
                        } else {
                            lines.push(command_line("  Run '", platform, "' to re-authorize"));
                        }
                    }
                },
                None => {
                    lines.push(String::from_str("  Expires: Unknown (no expiry info)"));
                },
            }
            assert(texts(lines@) =~= platform_lines(platform, Some(info@), now));
        },
        None => {
            let mut title = platform.name();
            title.append(": \u{2717} Not authorized");
            lines.push(title);
            lines.push(command_line("  Run '", platform, "' to authorize"));
            assert(texts(lines@) =~= platform_lines(platform, None, now));
        },
    }
    lines
}

/// Moves the strings of `more` to the end of `lines`.
fn append_lines(lines: &mut Vec<String>, more: Vec<String>)
    ensures
        texts(final(lines)@) == texts(old(lines)@) + texts(more@),
{
    let ghost before = texts(lines@);
    let ghost all = texts(more@);
    let mut i: usize = 0;
    let count = more.len();
    while i < count
        invariant
            i <= count,
            count == more@.len(),
            all == texts(more@),
            texts(lines@) == before + all.take(i as int),
        decreases count - i,
    {
        let ghost so_far = lines@;
        lines.push(more[i].clone());
        assert(all[i as int] == more@[i as int]@);
        assert(texts(so_far) == before + all.take(i as int));
        assert(texts(lines@) =~= texts(so_far).push(all[i as int]));
        assert(all.take(i + 1) =~= all.take(i as int).push(all[i as int]));
        assert(texts(lines@) =~= before + all.take(i + 1));
        i += 1;
    }
    assert(all.take(i as int) =~= all);
}

/// The lines of the status report at `now`. `token_path` is where the storage
/// is kept.
pub fn show_status(storage: &TokenStorage, now: Timestamp, token_path: &str) -> (lines: Vec<String>)
    ensures
        texts(lines@) == report_lines(storage@, now, token_path@),
{
    let mut lines: Vec<String> = Vec::new();
    lines.push(String::new());
    lines.push(String::from_str("=== DJ Uploader Status ==="));
    lines.push(String::new());
    proof {
        reveal_strlit("");
        assert(""@ =~= Seq::<char>::empty());
    }
    assert(texts(lines@) =~= seq![""@, "=== DJ Uploader Status ==="@, ""@]);
    append_lines(
        &mut lines,
        platform_status_lines(Platform::Mixcloud, storage.get_token(Platform::Mixcloud), now),
    );
    lines.push(String::new());
    assert(texts(lines@) =~= seq![""@, "=== DJ Uploader Status ==="@, ""@] + platform_lines(
        Platform::Mixcloud,
        storage@.mixcloud,
        now,
    ) + seq![""@]);
    append_lines(
        &mut lines,
        platform_status_lines(Platform::Soundcloud, storage.get_token(Platform::Soundcloud), now),
    );
    lines.push(String::new());
    let mut place = String::from_str("Token storage: ");
    place.append(token_path);
    lines.push(place);
    assert(texts(lines@) =~= report_lines(storage@, now, token_path@));
    lines
}

} // verus!
