//! The command-line grammar of the client: maps the raw arguments (everything
//! after the program name) to one of the four job-runner requests.
//!
//! Grammar: `start <command> [<arg>...]`; `stop [-g|--gracefully] <id>`;
//! `query <id>`; `stream <id>`. For `stop` the flag may stand anywhere among
//! the arguments and the first token that is not the flag is the job id;
//! tokens after the id are ignored. Each request that names a job carries a
//! freshly generated owner identifier.

use vstd::prelude::*;

use crate::crypto;
use crate::crypto::is_uuid;

verus! {

/// Why a command line was rejected. `InvalidID` carries the offending
/// identifier.
#[derive(Debug)]
pub enum ParseError {
    EmptyArgs,
    SubcommandMissing,
    SubcommandNotSupported(String),
    MissingID,
    InvalidID(String),
}

/// Starts a job running `name` with `args`.
#[derive(Clone)]
pub struct StartJobRequest {
    pub name: String,
    pub args: Vec<String>,
}

/// Stops the job `job_id`; `gracefully` asks for SIGTERM rather than SIGKILL.
#[derive(Clone)]
pub struct StopJobRequest {
    pub job_id: String,
    pub owner_id: String,
    pub gracefully: bool,
}

/// Queries the status of the job `job_id`.
#[derive(Clone)]
pub struct QueryJobRequest {
    pub job_id: String,
    pub owner_id: String,
}

/// Streams the output of the job `job_id`.
#[derive(Clone)]
pub struct StreamJobRequest {
    pub job_id: String,
    pub owner_id: String,
}

/// One parsed command, ready for the job-runner client.
pub enum Command {
    Start(StartJobRequest),
    Stop(StopJobRequest),
    Query(QueryJobRequest),
    Stream(StreamJobRequest),
}

/// The views of a sequence of strings.
pub open spec fn string_views(a: Seq<String>) -> Seq<Seq<char>> {
    a.map_values(|s: String| s@)
}

/// The one flag the grammar knows.
pub open spec fn is_graceful_flag(s: Seq<char>) -> bool {
    s == "-g"@ || s == "--gracefully"@
}

/// The first token at or after position `i` that is not the graceful flag.
pub open spec fn first_positional_from(v: Seq<Seq<char>>, i: int) -> Option<Seq<char>>
    decreases v.len() - i,
{
    if i < 0 || i >= v.len() {
        None
    } else if is_graceful_flag(v[i]) {
        first_positional_from(v, i + 1)
    } else {
        Some(v[i])
    }
}

/// Whether the graceful flag occurs anywhere in `v[lo..hi]`.
pub open spec fn has_flag_in(v: Seq<Seq<char>>, lo: int, hi: int) -> bool {
    exists|j: int| lo <= j < hi && is_graceful_flag(v[j])
}

/// String comparison against a literal, by view.
fn str_eq(a: &String, b: &str) -> (r: bool)
    ensures
        r == (a@ == b@),
{
    let owned: String = b.to_owned();
    *a == owned
}

/// Accepts a job identifier exactly when it is a textual UUID; a rejected
/// identifier is handed back inside the error.
pub fn validate_job_id(id: &String) -> (r: Result<String, ParseError>)
    ensures
        is_uuid(id@) ==> (r matches Ok(valid) && valid@ == id@),
        !is_uuid(id@) ==> (r matches Err(e) && (e matches ParseError::InvalidID(bad) && bad@
            == id@)),
{
    if crypto::uuid_parses(id) {
        Ok(id.clone())
    } else {
        Err(ParseError::InvalidID(id.clone()))
    }
}

/// Parses `start`: the first argument is the command name, the rest are its
/// arguments; with no arguments at all the command line is rejected.
fn parse_start(args: &Vec<String>) -> (r: Result<Command, ParseError>)
    requires
        args@.len() >= 1,
    ensures
        ({
            let v = string_views(args@);
            &&& v.len() == 1 ==> (r matches Err(e) && e is EmptyArgs)
            &&& v.len() > 1 ==> (r matches Ok(c) && (c matches Command::Start(req) && req.name@
                == v[1] && string_views(req.args@) == v.subrange(2, v.len() as int)))
        }),
{
    let ghost v = string_views(args@);
    if args.len() == 1 {
        return Err(ParseError::EmptyArgs);
    }
    let name = args[1].clone();
    let mut rest: Vec<String> = Vec::new();
    let mut i: usize = 2;
    while i < args.len()
        invariant
            2 <= i <= args@.len(),
            args@.len() >= 2,
            v == string_views(args@),
            rest@.len() == i - 2,
            forall|k: int| 0 <= k < rest@.len() ==> #[trigger] rest@[k]@ == v[k + 2],
        decreases args@.len() - i,
    {
        rest.push(args[i].clone());
        i += 1;
    }
    proof {
        assert(string_views(rest@) =~= v.subrange(2, v.len() as int));
    }
    Ok(Command::Start(StartJobRequest { name, args: rest }))
}

/// Scans the arguments of `stop`: the graceful flag may stand anywhere, the
/// first other token is the id, later tokens are ignored.
fn scan_stop_args(args: &Vec<String>) -> (r: (Option<String>, bool))
    requires
        args@.len() >= 1,
    ensures
        ({
            let v = string_views(args@);
            &&& r.1 == has_flag_in(v, 1, v.len() as int)
            &&& match r.0 {
                Some(s) => first_positional_from(v, 1) == Some(s@),
                None => first_positional_from(v, 1) is None,
            }
        }),
{
    let ghost v = string_views(args@);
    let mut gracefully = false;
    let mut id: Option<String> = None;
    let mut i: usize = 1;
    while i < args.len()
        invariant
            1 <= i <= args@.len(),
            v == string_views(args@),
            gracefully == has_flag_in(v, 1, i as int),
            match id {
                Some(s) => first_positional_from(v, 1) == Some(s@),
                None => first_positional_from(v, 1) == first_positional_from(v, i as int),
            },
        decreases args@.len() - i,
    {
        let a = &args[i];
        if str_eq(a, "-g") || str_eq(a, "--gracefully") {
            gracefully = true;
            proof {
                assert(is_graceful_flag(v[i as int]));
                assert(has_flag_in(v, 1, (i + 1) as int));
            }
        } else {
            proof {
                assert(!is_graceful_flag(v[i as int]));
                assert(has_flag_in(v, 1, (i + 1) as int) == has_flag_in(v, 1, i as int)) by {
                    if has_flag_in(v, 1, (i + 1) as int) {
                        let j = choose|j: int|
                            1 <= j < (i + 1) as int && is_graceful_flag(v[j]);
                        assert(j < i as int);
                    }
                }
            }
            if id.is_none() {
                id = Some(a.clone());
            }
        }
        i += 1;
    }
    (id, gracefully)
}

/// Parses `stop`: the graceful flag plus the job id, which must be a UUID.
fn parse_stop(args: &Vec<String>) -> (r: Result<Command, ParseError>)
    requires
        args@.len() >= 1,
    ensures
        ({
            let v = string_views(args@);
            match first_positional_from(v, 1) {
                Some(id) => if is_uuid(id) {
                    r matches Ok(c) && (c matches Command::Stop(req) && req.job_id@ == id
                        && req.gracefully == has_flag_in(v, 1, v.len() as int)
                        && req.owner_id@.len() == 36 && is_uuid(req.owner_id@))
                } else {
                    r matches Err(e) && (e matches ParseError::InvalidID(bad) && bad@ == id)
                },
                None => (r matches Err(e) && e is MissingID),
            }
        }),
{
    let (id, gracefully) = scan_stop_args(args);
    match id {
        None => Err(ParseError::MissingID),
        Some(job_id) => match validate_job_id(&job_id) {
            Ok(valid) => Ok(
                Command::Stop(
                    StopJobRequest {
                        job_id: valid,
                        owner_id: crypto::new_uuid_string(),
                        gracefully,
                    },
                ),
            ),
            Err(e) => Err(e),
        },
    }
}

/// Parses a subcommand whose sole argument is the job id.
fn parse_single_id(args: &Vec<String>) -> (r: Result<String, ParseError>)
    requires
        args@.len() >= 1,
    ensures
        ({
            let v = string_views(args@);
            if v.len() == 1 {
                r matches Err(e) && e is MissingID
            } else if is_uuid(v[1]) {
                r matches Ok(id) && id@ == v[1]
            } else {
                r matches Err(e) && (e matches ParseError::InvalidID(bad) && bad@ == v[1])
            }
        }),
{
    if args.len() == 1 {
        return Err(ParseError::MissingID);
    }
    validate_job_id(&args[1])
}

/// Maps a raw command line — the arguments after the program name — to a
/// job-runner command, or says exactly why it is rejected.
pub fn parse_cmd(args: &Vec<String>) -> (r: Result<Command, ParseError>)
    ensures
        ({
            let v = string_views(args@);
            &&& v.len() == 0 ==> (r matches Err(e) && e is SubcommandMissing)
            &&& (v.len() > 0 && v[0] == "start"@ && v.len() == 1) ==> (r matches Err(e) && e
                is EmptyArgs)
            &&& (v.len() > 1 && v[0] == "start"@) ==> (r matches Ok(c) && (c matches
            Command::Start(req) && req.name@ == v[1] && string_views(req.args@) == v.subrange(
                2,
                v.len() as int,
            )))
            &&& (v.len() > 0 && v[0] == "stop"@) ==> match first_positional_from(v, 1) {
                Some(id) => if is_uuid(id) {
                    r matches Ok(c) && (c matches Command::Stop(req) && req.job_id@ == id
                        && req.gracefully == has_flag_in(v, 1, v.len() as int)
                        && req.owner_id@.len() == 36 && is_uuid(req.owner_id@))
                } else {
                    r matches Err(e) && (e matches ParseError::InvalidID(bad) && bad@ == id)
                },
                None => (r matches Err(e) && e is MissingID),
            }
            &&& (v.len() > 0 && v[0] == "query"@) ==> (if v.len() == 1 {
                r matches Err(e) && e is MissingID
            } else if is_uuid(v[1]) {
                r matches Ok(c) && (c matches Command::Query(req) && req.job_id@ == v[1]
                    && req.owner_id@.len() == 36 && is_uuid(req.owner_id@))
            } else {
                r matches Err(e) && (e matches ParseError::InvalidID(bad) && bad@ == v[1])
            })
            &&& (v.len() > 0 && v[0] == "stream"@) ==> (if v.len() == 1 {
                r matches Err(e) && e is MissingID
            } else if is_uuid(v[1]) {
                r matches Ok(c) && (c matches Command::Stream(req) && req.job_id@ == v[1]
                    && req.owner_id@.len() == 36 && is_uuid(req.owner_id@))
            } else {
                r matches Err(e) && (e matches ParseError::InvalidID(bad) && bad@ == v[1])
            })
            &&& (v.len() > 0 && v[0] != "start"@ && v[0] != "stop"@ && v[0] != "query"@ && v[0]
                != "stream"@) ==> (r matches Err(e) && (e matches
            ParseError::SubcommandNotSupported(other) && other@ == v[0]))
        }),
{
    proof {
        // The contract cases are guarded by which word the first argument
        // is; reveal the four words so they are known pairwise distinct.
        reveal_strlit("start");
        reveal_strlit("stop");
        reveal_strlit("query");
        reveal_strlit("stream");
        assert("start"@.len() == 5);
        assert("stop"@.len() == 4);
        assert("query"@.len() == 5);
        assert("stream"@.len() == 6);
        assert("start"@[0] != "query"@[0]);
        assert("start"@ != "stop"@);
        assert("start"@ != "query"@);
        assert("start"@ != "stream"@);
        assert("stop"@ != "query"@);
        assert("stop"@ != "stream"@);
        assert("query"@ != "stream"@);
    }
    if args.len() == 0 {
        return Err(ParseError::SubcommandMissing);
    }
    let sub = &args[0];
    if str_eq(sub, "start") {
        parse_start(args)
    } else if str_eq(sub, "stop") {
        parse_stop(args)
    } else if str_eq(sub, "query") {
        match parse_single_id(args) {
            Ok(job_id) => Ok(
                Command::Query(QueryJobRequest { job_id, owner_id: crypto::new_uuid_string() }),
            ),
            Err(e) => Err(e),
        }
    } else if str_eq(sub, "stream") {
        match parse_single_id(args) {
            Ok(job_id) => Ok(
                Command::Stream(StreamJobRequest { job_id, owner_id: crypto::new_uuid_string() }),
            ),
            Err(e) => Err(e),
        }
    } else {
        Err(ParseError::SubcommandNotSupported(sub.clone()))
    }
}

} // verus!
