//! The validation smoke run against a Lightpanda browser: its command line,
//! its local probe URL, and how each attempt's validation signals grade it.
use vstd::prelude::*;

use crate::numtext::{parse_i64, parse_unsigned, parse_unsigned_str, parse_i64_str};
use crate::text::{
    concat2, copy_opt, insert_sorted_unique, opt_view, owned, seq_contains, seq_starts_with,
    str_contains, str_eq, str_starts_with, str_strip_prefix, string_from_chars, strictly_sorted,
    strings_view, chars_of, find_occurrence, first_occurrence_from, is_blank, occurs_at, lemma_first_occurrence_occurs, trim,
};
use crate::bindings::{json_str_at, json_text_shape, json_text_str_at, parse_json_shape};

verus! {

/// A smoke run as its command line configures it.
#[derive(Debug, Clone)]
pub struct SmokeConfig {
    pub url: String,
    pub repetitions: usize,
    pub timeout_seconds: i64,
    pub output_dir: String,
    pub profile_id: Option<String>,
    pub use_wsl_lightpanda: bool,
    pub wsl_distro: String,
    pub wsl_cdp_port: u16,
}

/// What the command line asks for.
#[derive(Debug, Clone)]
pub enum SmokeCommand {
    Run(SmokeConfig),
    Help,
}

/// Why a command line was refused.
#[derive(Debug, Clone)]
pub enum SmokeArgsError {
    MissingValue { key: String },
    InvalidRepetitions,
    InvalidTimeoutSeconds,
    InvalidWslCdpPort,
    UnknownArgument { key: String },
    UnsupportedUrlScheme,
    RepetitionsOutOfRange,
    TimeoutOutOfRange,
}

impl SmokeArgsError {
    /// The message the error is reported with.
    pub fn message(&self) -> (m: String)
        ensures
            m@ == match self {
                SmokeArgsError::MissingValue { key } => "missing value for "@ + key@,
                SmokeArgsError::InvalidRepetitions => "parse repetitions"@,
                SmokeArgsError::InvalidTimeoutSeconds => "parse timeout seconds"@,
                SmokeArgsError::InvalidWslCdpPort => "parse WSL CDP port"@,
                SmokeArgsError::UnknownArgument { key } => "unknown argument: "@ + key@,
                SmokeArgsError::UnsupportedUrlScheme => "--url must start with http:// or https://"@,
                SmokeArgsError::RepetitionsOutOfRange => "--repetitions must be between 1 and 10"@,
                SmokeArgsError::TimeoutOutOfRange => "--timeout-seconds must be between 1 and 120"@,
            },
    {
        match self {
            SmokeArgsError::MissingValue { key } => concat2("missing value for ", key.as_str()),
            SmokeArgsError::InvalidRepetitions => owned("parse repetitions"),
            SmokeArgsError::InvalidTimeoutSeconds => owned("parse timeout seconds"),
            SmokeArgsError::InvalidWslCdpPort => owned("parse WSL CDP port"),
            SmokeArgsError::UnknownArgument { key } => concat2("unknown argument: ", key.as_str()),
            SmokeArgsError::UnsupportedUrlScheme => owned("--url must start with http:// or https://"),
            SmokeArgsError::RepetitionsOutOfRange => owned("--repetitions must be between 1 and 10"),
            SmokeArgsError::TimeoutOutOfRange => owned("--timeout-seconds must be between 1 and 120"),
        }
    }
}

/// The settings gathered while reading a command line.
pub struct SmokeArgsState {
    pub url: Seq<char>,
    pub repetitions: int,
    pub timeout_seconds: int,
    pub output_dir: Seq<char>,
    pub profile_id: Option<Seq<char>>,
    pub use_wsl_lightpanda: bool,
    pub wsl_distro: Seq<char>,
    pub wsl_cdp_port: int,
}

/// A refusal of a command line, as a value of the specification.
pub enum SmokeArgsFault {
    MissingValue(Seq<char>),
    InvalidRepetitions,
    InvalidTimeoutSeconds,
    InvalidWslCdpPort,
    UnknownArgument(Seq<char>),
}

/// Where reading a command line ends.
pub enum SmokeArgsScan {
    Done(SmokeArgsState),
    Help,
    Fault(SmokeArgsFault),
}

/// The settings of a command line that gives none.
pub open spec fn default_smoke_args() -> SmokeArgsState {
    SmokeArgsState {
        url: "https://example.com/"@,
        repetitions: 2,
        timeout_seconds: 20,
        output_dir: "data/reports/validation-smoke"@,
        profile_id: None,
        use_wsl_lightpanda: false,
        wsl_distro: "HermesUbuntu"@,
        wsl_cdp_port: 9222,
    }
}

/// Reads the command line from position `i` on: `--use-wsl-lightpanda` stands
/// alone, every other key takes the next word as its value.
pub open spec fn scan_smoke_args(args: Seq<Seq<char>>, i: int, st: SmokeArgsState) -> SmokeArgsScan
    decreases args.len() - i,
{
    if i < 0 || i >= args.len() {
        SmokeArgsScan::Done(st)
    } else if args[i] == "--use-wsl-lightpanda"@ {
        scan_smoke_args(args, i + 1, SmokeArgsState { use_wsl_lightpanda: true, ..st })
    } else if i + 1 >= args.len() {
        SmokeArgsScan::Fault(SmokeArgsFault::MissingValue(args[i]))
    } else {
        let key = args[i];
        let value = args[i + 1];
        if key == "--url"@ {
            scan_smoke_args(args, i + 2, SmokeArgsState { url: value, ..st })
        } else if key == "--repetitions"@ {
            match parse_unsigned(value, usize::MAX as int) {
                Some(n) => scan_smoke_args(args, i + 2, SmokeArgsState { repetitions: n as int, ..st }),
                None => SmokeArgsScan::Fault(SmokeArgsFault::InvalidRepetitions),
            }
        } else if key == "--timeout-seconds"@ {
            match parse_i64(value) {
                Some(n) => scan_smoke_args(args, i + 2, SmokeArgsState { timeout_seconds: n as int, ..st }),
                None => SmokeArgsScan::Fault(SmokeArgsFault::InvalidTimeoutSeconds),
            }
        } else if key == "--output-dir"@ {
            scan_smoke_args(args, i + 2, SmokeArgsState { output_dir: value, ..st })
        } else if key == "--profile-id"@ {
            scan_smoke_args(args, i + 2, SmokeArgsState { profile_id: Some(value), ..st })
        } else if key == "--wsl-distro"@ {
            scan_smoke_args(args, i + 2, SmokeArgsState { wsl_distro: value, ..st })
        } else if key == "--wsl-cdp-port"@ {
            match parse_unsigned(value, 65535) {
                Some(n) => scan_smoke_args(args, i + 2, SmokeArgsState { wsl_cdp_port: n as int, ..st }),
                None => SmokeArgsScan::Fault(SmokeArgsFault::InvalidWslCdpPort),
            }
        } else if key == "--help"@ || key == "-h"@ {
            SmokeArgsScan::Help
        } else {
            SmokeArgsScan::Fault(SmokeArgsFault::UnknownArgument(key))
        }
    }
}

/// The view of gathered settings.
pub open spec fn config_view(c: SmokeConfig) -> SmokeArgsState {
    SmokeArgsState {
        url: c.url@,
        repetitions: c.repetitions as int,
        timeout_seconds: c.timeout_seconds as int,
        output_dir: c.output_dir@,
        profile_id: opt_view(c.profile_id),
        use_wsl_lightpanda: c.use_wsl_lightpanda,
        wsl_distro: c.wsl_distro@,
        wsl_cdp_port: c.wsl_cdp_port as int,
    }
}

pub open spec fn args_fault_of(e: SmokeArgsError) -> Option<SmokeArgsFault> {
    match e {
        SmokeArgsError::MissingValue { key } => Some(SmokeArgsFault::MissingValue(key@)),
        SmokeArgsError::InvalidRepetitions => Some(SmokeArgsFault::InvalidRepetitions),
        SmokeArgsError::InvalidTimeoutSeconds => Some(SmokeArgsFault::InvalidTimeoutSeconds),
        SmokeArgsError::InvalidWslCdpPort => Some(SmokeArgsFault::InvalidWslCdpPort),
        SmokeArgsError::UnknownArgument { key } => Some(SmokeArgsFault::UnknownArgument(key@)),
        _ => None,
    }
}

/// The views of a list of strings.
pub open spec fn args_view(args: Seq<String>) -> Seq<Seq<char>> {
    strings_view(args)
}

/// The checks a complete command line must pass, in order: the URL's scheme,
/// the repetition count (1 to 10), the timeout (1 to 120 seconds).
pub open spec fn smoke_config_problem(st: SmokeArgsState) -> Option<SmokeArgsError> {
    if !(seq_starts_with(st.url, "http://"@) || seq_starts_with(st.url, "https://"@)) {
        Some(SmokeArgsError::UnsupportedUrlScheme)
    } else if st.repetitions == 0 || st.repetitions > 10 {
        Some(SmokeArgsError::RepetitionsOutOfRange)
    } else if !(1 <= st.timeout_seconds <= 120) {
        Some(SmokeArgsError::TimeoutOutOfRange)
    } else {
        None
    }
}

fn copy_state(url: &String, repetitions: usize, timeout_seconds: i64, output_dir: &String, profile_id: &Option<String>, use_wsl: bool, distro: &String, port: u16) -> (c: SmokeConfig)
    ensures
        config_view(c) == (SmokeArgsState {
            url: url@,
            repetitions: repetitions as int,
            timeout_seconds: timeout_seconds as int,
            output_dir: output_dir@,
            profile_id: opt_view(*profile_id),
            use_wsl_lightpanda: use_wsl,
            wsl_distro: distro@,
            wsl_cdp_port: port as int,
        }),
{
    SmokeConfig {
        url: owned(url.as_str()),
        repetitions,
        timeout_seconds,
        output_dir: owned(output_dir.as_str()),
        profile_id: copy_opt(profile_id),
        use_wsl_lightpanda: use_wsl,
        wsl_distro: owned(distro.as_str()),
        wsl_cdp_port: port,
    }
}

/// Reads the smoke run's command line.
pub fn parse_args(args: Vec<String>) -> (r: Result<SmokeCommand, SmokeArgsError>)
    ensures
        match scan_smoke_args(args_view(args@), 0, default_smoke_args()) {
            SmokeArgsScan::Help => r matches Ok(SmokeCommand::Help),
            SmokeArgsScan::Fault(f) => r matches Err(e) && args_fault_of(e) == Some(f),
            SmokeArgsScan::Done(st) => match smoke_config_problem(st) {
                Some(p) => r matches Err(e) && e == p,
                None => r matches Ok(SmokeCommand::Run(c)) && config_view(c) == st,
            },
        },
{
    let ghost av = args_view(args@);
    let mut url = owned("https://example.com/");
    let mut repetitions: usize = 2;
    let mut timeout_seconds: i64 = 20;
    let mut output_dir = owned("data/reports/validation-smoke");
    let mut profile_id: Option<String> = None;
    let mut use_wsl_lightpanda = false;
    let mut wsl_distro = owned("HermesUbuntu");
    let mut wsl_cdp_port: u16 = 9222;
    let mut index: usize = 0;
    while index < args.len()
        invariant
            av == args_view(args@),
            index <= args@.len(),
            scan_smoke_args(av, 0, default_smoke_args()) == scan_smoke_args(
                av,
                index as int,
                SmokeArgsState {
                    url: url@,
                    repetitions: repetitions as int,
                    timeout_seconds: timeout_seconds as int,
                    output_dir: output_dir@,
                    profile_id: opt_view(profile_id),
                    use_wsl_lightpanda,
                    wsl_distro: wsl_distro@,
                    wsl_cdp_port: wsl_cdp_port as int,
                },
            ),
        decreases args@.len() - index,
    {
        let key = &args[index];
        assert(av[index as int] == key@);
        if str_eq(key.as_str(), "--use-wsl-lightpanda") {
            use_wsl_lightpanda = true;
            index = index + 1;
            continue;
        }
        if index + 1 >= args.len() {
            return Err(SmokeArgsError::MissingValue { key: owned(key.as_str()) });
        }
        let value = &args[index + 1];
        assert(av[index + 1] == value@);
        if str_eq(key.as_str(), "--url") {
            url = owned(value.as_str());
        } else if str_eq(key.as_str(), "--repetitions") {
            match parse_unsigned_str(value.as_str(), usize::MAX as u64) {
                Some(n) => {
                    repetitions = n as usize;
                },
                None => return Err(SmokeArgsError::InvalidRepetitions),
            }
        } else if str_eq(key.as_str(), "--timeout-seconds") {
            match parse_i64_str(value.as_str()) {
                Some(n) => {
                    timeout_seconds = n;
                },
                None => return Err(SmokeArgsError::InvalidTimeoutSeconds),
            }
        } else if str_eq(key.as_str(), "--output-dir") {
            output_dir = owned(value.as_str());
        } else if str_eq(key.as_str(), "--profile-id") {
            profile_id = Some(owned(value.as_str()));
        } else if str_eq(key.as_str(), "--wsl-distro") {
            wsl_distro = owned(value.as_str());
        } else if str_eq(key.as_str(), "--wsl-cdp-port") {
            match parse_unsigned_str(value.as_str(), 65535) {
                Some(n) => {
                    wsl_cdp_port = n as u16;
                },
                None => return Err(SmokeArgsError::InvalidWslCdpPort),
            }
        } else if str_eq(key.as_str(), "--help") || str_eq(key.as_str(), "-h") {
            return Ok(SmokeCommand::Help);
        } else {
            return Err(SmokeArgsError::UnknownArgument { key: owned(key.as_str()) });
        }
        index = index + 2;
    }
    if !(str_starts_with(url.as_str(), "http://") || str_starts_with(url.as_str(), "https://")) {
        return Err(SmokeArgsError::UnsupportedUrlScheme);
    }
    if repetitions == 0 || repetitions > 10 {
        return Err(SmokeArgsError::RepetitionsOutOfRange);
    }
    if !(1 <= timeout_seconds && timeout_seconds <= 120) {
        return Err(SmokeArgsError::TimeoutOutOfRange);
    }
    Ok(
        SmokeCommand::Run(
            copy_state(
                &url,
                repetitions,
                timeout_seconds,
                &output_dir,
                &profile_id,
                use_wsl_lightpanda,
                &wsl_distro,
                wsl_cdp_port,
            ),
        ),
    )
}


/// Why a local HTTP probe gave no JSON document.
#[derive(Debug, Clone, PartialEq, Eq)]
pub enum SmokeHttpError {
    /// The status line is not `200`.
    NotOk,
    /// The response has no blank line before a body.
    NoBody,
    /// The body is not JSON.
    DecodeJson,
    /// The CDP version document names no debugger URL.
    NoDebuggerUrl,
}

impl SmokeHttpError {
    /// The message the error is reported with.
    pub fn message(&self) -> (m: &'static str)
        ensures
            m@ == match self {
                SmokeHttpError::NotOk => "local HTTP endpoint did not return 200"@,
                SmokeHttpError::NoBody => "local HTTP response did not include a body"@,
                SmokeHttpError::DecodeJson => "decode JSON"@,
                SmokeHttpError::NoDebuggerUrl => "WSL Lightpanda /json/version did not expose webSocketDebuggerUrl"@,
            },
    {
        match self {
            SmokeHttpError::NotOk => "local HTTP endpoint did not return 200",
            SmokeHttpError::NoBody => "local HTTP response did not include a body",
            SmokeHttpError::DecodeJson => "decode JSON",
            SmokeHttpError::NoDebuggerUrl => "WSL Lightpanda /json/version did not expose webSocketDebuggerUrl",
        }
    }
}

/// Whether an HTTP response's status line says `200` (HTTP/1.1 or HTTP/1.0).
pub open spec fn http_ok(response: Seq<char>) -> bool {
    seq_starts_with(response, "HTTP/1.1 200"@) || seq_starts_with(response, "HTTP/1.0 200"@)
}

/// The second piece of `s` split at `sep`: what follows the first `sep`, up
/// to the next one; `None` where `s` holds no `sep`.
pub open spec fn second_piece(s: Seq<char>, sep: Seq<char>) -> Option<Seq<char>> {
    match first_occurrence_from(s, sep, 0) {
        None => None,
        Some(i) => {
            let rest = s.subrange(i + sep.len(), s.len() as int);
            match first_occurrence_from(rest, sep, 0) {
                Some(j) => Some(rest.subrange(0, j)),
                None => Some(rest),
            }
        },
    }
}

/// The body of an HTTP response: the piece after the first blank line.
pub open spec fn http_body(response: Seq<char>) -> Option<Seq<char>> {
    second_piece(response, "\r\n\r\n"@)
}

/// The JSON body of a local HTTP response: refused where the status is not
/// `200`, where there is no body, or where the body is not JSON, checked in
/// that order.
pub open spec fn json_body_of(response: Seq<char>) -> Result<Seq<char>, SmokeHttpError> {
    if !http_ok(response) {
        Err(SmokeHttpError::NotOk)
    } else {
        match http_body(response) {
            None => Err(SmokeHttpError::NoBody),
            Some(b) => if json_text_shape(b) is Some {
                Ok(b)
            } else {
                Err(SmokeHttpError::DecodeJson)
            },
        }
    }
}

/// The JSON body of a local HTTP response (see [`json_body_of`]).
pub fn http_json_body(response: &str) -> (r: Result<String, SmokeHttpError>)
    ensures
        match r {
            Ok(b) => json_body_of(response@) == Ok::<Seq<char>, SmokeHttpError>(b@),
            Err(e) => json_body_of(response@) == Err::<Seq<char>, SmokeHttpError>(e),
        },
{
    if !str_starts_with(response, "HTTP/1.1 200") && !str_starts_with(response, "HTTP/1.0 200") {
        return Err(SmokeHttpError::NotOk);
    }
    let cs = chars_of(response);
    let sep = chars_of("\r\n\r\n");
    let i = match find_occurrence(&cs, &sep) {
        Some(i) => i,
        None => return Err(SmokeHttpError::NoBody),
    };
    proof {
        lemma_first_occurrence_occurs(cs@, sep@, 0);
        assert(occurs_at(cs@, sep@, i as int));
        assert(i + sep@.len() <= cs@.len());
    }
    let n = cs.len();
    let sep_len = sep.len();
    let start = i + sep_len;
    let rest = string_from_chars(&cs, start, n);
    let rest_cs = chars_of(rest.as_str());
    let body = match find_occurrence(&rest_cs, &sep) {
        Some(j) => {
            proof {
                lemma_first_occurrence_occurs(rest_cs@, sep@, 0);
            }
            string_from_chars(&rest_cs, 0, j)
        },
        None => rest,
    };
    if parse_json_shape(body.as_str()).is_none() {
        return Err(SmokeHttpError::DecodeJson);
    }
    Ok(body)
}

/// The CDP debugger endpoint a local `/json/version` response names: its
/// `webSocketDebuggerUrl`, as it stands, where that is a text that is not
/// blank; the response's own refusals first.
pub fn cdp_version_endpoint(response: &str) -> (r: Result<String, SmokeHttpError>)
    ensures
        match json_body_of(response@) {
            Err(e) => r == Err::<String, SmokeHttpError>(e),
            Ok(b) => match json_text_str_at(b, "/webSocketDebuggerUrl"@) {
                Some(e) => if trim(e).len() > 0 {
                    r matches Ok(x) && x@ == e
                } else {
                    r == Err::<String, SmokeHttpError>(SmokeHttpError::NoDebuggerUrl)
                },
                None => r == Err::<String, SmokeHttpError>(SmokeHttpError::NoDebuggerUrl),
            },
        },
{
    let body = match http_json_body(response) {
        Ok(b) => b,
        Err(e) => return Err(e),
    };
    match json_str_at(body.as_str(), "/webSocketDebuggerUrl") {
        Some(e) => if is_blank(e.as_str()) {
            Err(SmokeHttpError::NoDebuggerUrl)
        } else {
            Ok(e)
        },
        None => Err(SmokeHttpError::NoDebuggerUrl),
    }
}

/// Why a local probe URL was refused.
#[derive(Debug, Clone)]
pub enum LocalUrlError {
    UnsupportedScheme,
    MissingPort,
    InvalidPort,
}

impl LocalUrlError {
    /// The message the error is reported with.
    pub fn message(&self) -> (m: &'static str)
        ensures
            m@ == match self {
                LocalUrlError::UnsupportedScheme => "only http:// URLs are supported for local probe"@,
                LocalUrlError::MissingPort => "local probe URL must include a port"@,
                LocalUrlError::InvalidPort => "parse local probe port"@,
            },
    {
        match self {
            LocalUrlError::UnsupportedScheme => "only http:// URLs are supported for local probe",
            LocalUrlError::MissingPort => "local probe URL must include a port",
            LocalUrlError::InvalidPort => "parse local probe port",
        }
    }
}

/// The first position of `c` in `s`.
pub open spec fn first_index_of(s: Seq<char>, c: char) -> Option<int> {
    if exists|i: int| 0 <= i < s.len() && s[i] == c {
        Some(choose|i: int| 0 <= i < s.len() && s[i] == c && forall|k: int| 0 <= k < i ==> s[k] != c)
    } else {
        None
    }
}

/// The last position of `c` in `s`.
pub open spec fn last_index_of(s: Seq<char>, c: char) -> Option<int> {
    if exists|i: int| 0 <= i < s.len() && s[i] == c {
        Some(choose|i: int| 0 <= i < s.len() && s[i] == c && forall|k: int| i < k < s.len() ==> s[k] != c)
    } else {
        None
    }
}

fn find_first(cs: &Vec<char>, c: char) -> (r: Option<usize>)
    ensures
        match r {
            Some(i) => i < cs@.len() && cs@[i as int] == c && forall|k: int| 0 <= k < i ==> cs@[k] != c,
            None => forall|k: int| 0 <= k < cs@.len() ==> cs@[k] != c,
        },
{
    let mut i: usize = 0;
    while i < cs.len()
        invariant
            i <= cs@.len(),
            forall|k: int| 0 <= k < i ==> cs@[k] != c,
        decreases cs@.len() - i,
    {
        if cs[i] == c {
            return Some(i);
        }
        i = i + 1;
    }
    None
}

fn find_last(cs: &Vec<char>, c: char) -> (r: Option<usize>)
    ensures
        match r {
            Some(i) => i < cs@.len() && cs@[i as int] == c && forall|k: int| i < k < cs@.len() ==> cs@[k] != c,
            None => forall|k: int| 0 <= k < cs@.len() ==> cs@[k] != c,
        },
{
    let mut i: usize = cs.len();
    while i > 0
        invariant
            i <= cs@.len(),
            forall|k: int| i <= k < cs@.len() ==> cs@[k] != c,
        decreases i,
    {
        if cs[i - 1] == c {
            return Some(i - 1);
        }
        i = i - 1;
    }
    None
}

proof fn lemma_first_index(s: Seq<char>, c: char, i: int)
    requires
        0 <= i < s.len(),
        s[i] == c,
        forall|k: int| 0 <= k < i ==> s[k] != c,
    ensures
        first_index_of(s, c) == Some(i),
{
    let j = choose|j: int| 0 <= j < s.len() && s[j] == c && forall|k: int| 0 <= k < j ==> s[k] != c;
    assert(j == i) by {
        if j < i {
            assert(s[j] != c);
        }
        if i < j {
            assert(s[i] != c);
        }
    }
}

proof fn lemma_last_index(s: Seq<char>, c: char, i: int)
    requires
        0 <= i < s.len(),
        s[i] == c,
        forall|k: int| i < k < s.len() ==> s[k] != c,
    ensures
        last_index_of(s, c) == Some(i),
{
    let j = choose|j: int| 0 <= j < s.len() && s[j] == c && forall|k: int| j < k < s.len() ==> s[k] != c;
    assert(j == i) by {
        if j < i {
            assert(s[i] != c);
        }
        if i < j {
            assert(s[j] != c);
        }
    }
}

/// The host, port and path of a local `http://host:port/path` probe URL: the
/// authority ends at the first `/`, the port follows its last `:`.
pub open spec fn local_http_url(url: Seq<char>) -> Result<(Seq<char>, u16, Seq<char>), LocalUrlError> {
    if !seq_starts_with(url, "http://"@) {
        Err(LocalUrlError::UnsupportedScheme)
    } else {
        let rest = url.subrange(7, url.len() as int);
        let (authority, path) = match first_index_of(rest, '/') {
            Some(i) => (rest.subrange(0, i), rest.subrange(i + 1, rest.len() as int)),
            None => (rest, seq![]),
        };
        match last_index_of(authority, ':') {
            None => Err(LocalUrlError::MissingPort),
            Some(j) => match parse_unsigned(authority.subrange(j + 1, authority.len() as int), 65535) {
                None => Err(LocalUrlError::InvalidPort),
                Some(port) => Ok((authority.subrange(0, j), port as u16, seq!['/'] + path)),
            },
        }
    }
}

/// Splits a local probe URL into host, port and path.
pub fn parse_local_http_url(url: &str) -> (r: Result<(String, u16, String), LocalUrlError>)
    ensures
        match local_http_url(url@) {
            Ok((host, port, path)) => r matches Ok(x) && x.0@ == host && x.1 == port && x.2@ == path,
            Err(e) => r matches Err(x) && x == e,
        },
{
    proof {
        reveal_strlit("http://");
    }
    let rest = match str_strip_prefix(url, "http://") {
        Some(r) => r,
        None => return Err(LocalUrlError::UnsupportedScheme),
    };
    let cs = chars_of(rest.as_str());
    let (authority, path) = match find_first(&cs, '/') {
        Some(i) => {
            proof {
                lemma_first_index(cs@, '/', i as int);
            }
            (string_from_chars(&cs, 0, i), string_from_chars(&cs, i + 1, cs.len()))
        },
        None => {
            assert(cs@.subrange(0, cs@.len() as int) =~= cs@);
            (string_from_chars(&cs, 0, cs.len()), String::new())
        },
    };
    let ac = chars_of(authority.as_str());
    let j = match find_last(&ac, ':') {
        Some(j) => j,
        None => return Err(LocalUrlError::MissingPort),
    };
    proof {
        lemma_last_index(ac@, ':', j as int);
    }
    let port_text = string_from_chars(&ac, j + 1, ac.len());
    let port = match parse_unsigned_str(port_text.as_str(), 65535) {
        Some(p) => p as u16,
        None => return Err(LocalUrlError::InvalidPort),
    };
    let host = string_from_chars(&ac, 0, j);
    let full_path = concat2("/", path.as_str());
    proof {
        reveal_strlit("/");
        assert(seq!['/'] + path@ =~= "/"@ + path@);
    }
    Ok((host, port, full_path))
}

/// How a runner attempt ended.
#[derive(Debug, Clone, Copy, PartialEq, Eq, Structural)]
pub enum RunnerOutcomeStatus {
    Succeeded,
    Failed,
    Cancelled,
    TimedOut,
}

pub open spec fn runner_status_name(status: RunnerOutcomeStatus) -> Seq<char> {
    match status {
        RunnerOutcomeStatus::Succeeded => "succeeded"@,
        RunnerOutcomeStatus::Failed => "failed"@,
        RunnerOutcomeStatus::Cancelled => "cancelled"@,
        RunnerOutcomeStatus::TimedOut => "timed_out"@,
    }
}

/// The name a smoke report gives a runner outcome.
pub fn runner_status(status: RunnerOutcomeStatus) -> (r: &'static str)
    ensures
        r@ == runner_status_name(status),
{
    match status {
        RunnerOutcomeStatus::Succeeded => "succeeded",
        RunnerOutcomeStatus::Failed => "failed",
        RunnerOutcomeStatus::Cancelled => "cancelled",
        RunnerOutcomeStatus::TimedOut => "timed_out",
    }
}

/// One validation signal of a runner's result: its `category` and `detail`
/// texts where it has them, and the signal itself as JSON text.
#[derive(Debug, Clone)]
pub struct ValidationSignal {
    pub category: Option<String>,
    pub detail: Option<String>,
    pub raw: String,
}

/// What a runner attempt returned: its outcome, its error, the validation
/// signals its result holds (`None` when it holds no signal list) and the
/// result itself as JSON text.
#[derive(Debug, Clone)]
pub struct RunnerExecutionResult {
    pub status: RunnerOutcomeStatus,
    pub error_message: Option<String>,
    pub validation_signals: Option<Vec<ValidationSignal>>,
    pub result_json: Option<String>,
}

/// One graded attempt of a smoke run.
#[derive(Debug, Clone)]
pub struct SmokeAttempt {
    pub attempt: usize,
    pub runner: String,
    pub status: String,
    pub evidence_status: String,
    pub failure_reason: Option<String>,
    pub signal_count: usize,
    pub categories: Vec<String>,
    pub signals: Vec<ValidationSignal>,
    pub raw_result: Option<String>,
}

/// Whether a signal was collected inside the profile's own browser runtime.
pub open spec fn runtime_signal(signal: ValidationSignal) -> bool {
    signal.detail matches Some(d) && seq_contains(d@, "scope=profile-browser-runtime"@)
}

pub fn is_profile_browser_runtime_signal(signal: &ValidationSignal) -> (r: bool)
    ensures
        r == runtime_signal(*signal),
{
    match &signal.detail {
        Some(d) => str_contains(d.as_str(), "scope=profile-browser-runtime"),
        None => false,
    }
}

/// Whether a signal names the category `c`.
pub open spec fn names_category(signal: ValidationSignal, c: Seq<char>) -> bool {
    signal.category matches Some(x) && x@ == c
}

/// The categories the signals name.
pub open spec fn signal_categories(signals: Seq<ValidationSignal>) -> Set<Seq<char>> {
    Set::new(|c: Seq<char>| exists|i: int| 0 <= i < signals.len() && names_category(#[trigger] signals[i], c))
}

/// The categories the signals name, each once, in order.
pub fn unique_categories(signals: &Vec<ValidationSignal>) -> (r: Vec<String>)
    ensures
        strictly_sorted(strings_view(r@)),
        strings_view(r@).to_set() == signal_categories(signals@),
{
    let mut r: Vec<String> = Vec::new();
    let mut i: usize = 0;
    assert(strings_view(r@).to_set() =~= signal_categories(signals@.subrange(0, 0)));
    while i < signals.len()
        invariant
            i <= signals@.len(),
            strictly_sorted(strings_view(r@)),
            strings_view(r@).to_set() == signal_categories(signals@.subrange(0, i as int)),
        decreases signals@.len() - i,
    {
        let ghost before = strings_view(r@).to_set();
        match &signals[i].category {
            Some(c) => {
                insert_sorted_unique(&mut r, owned(c.as_str()));
            },
            None => {},
        }
        proof {
            let prev = signals@.subrange(0, i as int);
            let next = signals@.subrange(0, i as int + 1);
            assert forall|c: Seq<char>| signal_categories(next).contains(c) <==> strings_view(r@).to_set().contains(c) by {
                if signal_categories(next).contains(c) {
                    let k = choose|k: int| 0 <= k < next.len() && names_category(#[trigger] next[k], c);
                    if k < i {
                        assert(next[k] == prev[k]);
                        assert(signal_categories(prev).contains(c));
                    }
                }
                if before.contains(c) {
                    let k = choose|k: int| 0 <= k < prev.len() && names_category(#[trigger] prev[k], c);
                    assert(next[k] == prev[k]);
                    assert(signal_categories(next).contains(c));
                }
                if names_category(signals@[i as int], c) {
                    assert(next[i as int] == signals@[i as int]);
                    assert(signal_categories(next).contains(c));
                }
            }
            assert(signal_categories(next) =~= strings_view(r@).to_set());
        }
        i = i + 1;
    }
    assert(signals@.subrange(0, i as int) =~= signals@);
    r
}

/// How an attempt's evidence grades: passed when the runner succeeded and a
/// signal came from the profile's runtime; blocked when it failed with an
/// error or gave no signal; a warning otherwise.
pub open spec fn evidence_grade(result: RunnerExecutionResult, signals: Seq<ValidationSignal>) -> Seq<char> {
    if result.status == RunnerOutcomeStatus::Succeeded && exists|i: int|
        0 <= i < signals.len() && runtime_signal(#[trigger] signals[i]) {
        "passed"@
    } else if result.error_message is Some || signals.len() == 0 {
        "blocked"@
    } else {
        "warning"@
    }
}

fn any_runtime_signal(signals: &Vec<ValidationSignal>) -> (r: bool)
    ensures
        r == exists|i: int| 0 <= i < signals@.len() && runtime_signal(#[trigger] signals@[i]),
{
    let mut i: usize = 0;
    while i < signals.len()
        invariant
            i <= signals@.len(),
            forall|k: int| 0 <= k < i ==> !runtime_signal(#[trigger] signals@[k]),
        decreases signals@.len() - i,
    {
        if is_profile_browser_runtime_signal(&signals[i]) {
            return true;
        }
        i = i + 1;
    }
    false
}

/// Grades one runner attempt of a smoke run.
pub fn summarize_attempt(attempt: usize, runner: &str, result: RunnerExecutionResult) -> (a: SmokeAttempt)
    ensures
        a.attempt == attempt,
        a.runner@ == runner@,
        a.status@ == runner_status_name(result.status),
        a.signals@ == match result.validation_signals {
            Some(v) => v@,
            None => Seq::<ValidationSignal>::empty(),
        },
        a.evidence_status@ == evidence_grade(result, a.signals@),
        opt_view(a.failure_reason) == opt_view(result.error_message),
        a.signal_count == a.signals@.len(),
        strictly_sorted(strings_view(a.categories@)),
        strings_view(a.categories@).to_set() == signal_categories(a.signals@),
        opt_view(a.raw_result) == opt_view(result.result_json),
{
    let RunnerExecutionResult { status, error_message, validation_signals, result_json } = result;
    let signals = match validation_signals {
        Some(v) => v,
        None => Vec::new(),
    };
    let categories = unique_categories(&signals);
    let has_profile_runtime = any_runtime_signal(&signals);
    let succeeded = match status {
        RunnerOutcomeStatus::Succeeded => true,
        _ => false,
    };
    let evidence_status = if succeeded && has_profile_runtime {
        owned("passed")
    } else if error_message.is_some() || signals.len() == 0 {
        owned("blocked")
    } else {
        owned("warning")
    };
    let signal_count = signals.len();
    SmokeAttempt {
        attempt,
        runner: owned(runner),
        status: owned(runner_status(status)),
        evidence_status,
        failure_reason: error_message,
        signal_count,
        categories,
        signals,
        raw_result: result_json,
    }
}

/// How a whole smoke run grades: passed when every attempt passed, blocked
/// when every attempt was blocked, a warning otherwise.
pub open spec fn overall_grade(attempts: Seq<SmokeAttempt>) -> Seq<char> {
    if forall|i: int| 0 <= i < attempts.len() ==> (#[trigger] attempts[i]).evidence_status@ == "passed"@ {
        "passed"@
    } else if forall|i: int| 0 <= i < attempts.len() ==> (#[trigger] attempts[i]).evidence_status@ == "blocked"@ {
        "blocked"@
    } else {
        "warning"@
    }
}

pub fn overall_status(attempts: &Vec<SmokeAttempt>) -> (r: String)
    ensures
        r@ == overall_grade(attempts@),
{
    let mut all_passed = true;
    let mut all_blocked = true;
    let mut i: usize = 0;
    while i < attempts.len()
        invariant
            i <= attempts@.len(),
            all_passed == forall|k: int| 0 <= k < i ==> (#[trigger] attempts@[k]).evidence_status@ == "passed"@,
            all_blocked == forall|k: int| 0 <= k < i ==> (#[trigger] attempts@[k]).evidence_status@ == "blocked"@,
        decreases attempts@.len() - i,
    {
        if !str_eq(attempts[i].evidence_status.as_str(), "passed") {
            all_passed = false;
        }
        if !str_eq(attempts[i].evidence_status.as_str(), "blocked") {
            all_blocked = false;
        }
        i = i + 1;
    }
    if all_passed {
        owned("passed")
    } else if all_blocked {
        owned("blocked")
    } else {
        owned("warning")
    }
}


/// Why a smoke run ended as it did, for each overall status.
pub open spec fn exit_reason_of(status: Seq<char>) -> Seq<char> {
    if status == "passed"@ {
        "all attempts returned profile-browser runtime validation signals"@
    } else if status == "blocked"@ {
        "no attempt returned complete real Lightpanda/CDP validation evidence"@
    } else {
        "one or more attempts failed or returned incomplete evidence"@
    }
}

/// The exit reason a smoke report gives for its overall status.
pub fn smoke_exit_reason(status: &str) -> (r: &'static str)
    ensures
        r@ == exit_reason_of(status@),
{
    if str_eq(status, "passed") {
        "all attempts returned profile-browser runtime validation signals"
    } else if str_eq(status, "blocked") {
        "no attempt returned complete real Lightpanda/CDP validation evidence"
    } else {
        "one or more attempts failed or returned incomplete evidence"
    }
}


/// A run is graded passed only when every attempt passed and blocked only
/// when every attempt was blocked: a run that mixes a passed and a blocked
/// attempt is a warning, never one of the two.
pub proof fn lemma_mixed_attempts_warn(attempts: Seq<SmokeAttempt>, p: int, b: int)
    requires
        0 <= p < attempts.len(),
        0 <= b < attempts.len(),
        attempts[p].evidence_status@ == "passed"@,
        attempts[b].evidence_status@ == "blocked"@,
    ensures
        overall_grade(attempts) == "warning"@,
{
    reveal_strlit("passed");
    reveal_strlit("blocked");
    assert("passed"@[0] != "blocked"@[0]);
    assert(attempts[b].evidence_status@ != "passed"@);
    assert(attempts[p].evidence_status@ != "blocked"@);
}

} // verus!
