//! The `/run` endpoint and the health check: which interpreter a request
//! asks for, what is stored, what process to start, and how its result maps
//! to an HTTP reply.

use vstd::prelude::*;
use vstd::string::*;
use crate::store::CodeStore;
use crate::text::{decode_output, lossy_utf8_of};

verus! {

pub const STATUS_OK: u16 = 200;

pub const STATUS_BAD_REQUEST: u16 = 400;

pub const STATUS_INTERNAL_ERROR: u16 = 500;

/// An interpreter that the service knows how to start.
#[derive(PartialEq, Eq, Structural, Clone, Copy, Debug)]
pub enum Language {
    JavaScript,
    TypeScript,
}

/// The body of a `/run` request.
pub struct RunRequest {
    pub code: String,
    pub language: String,
}

/// A process to start: a program name and its arguments.
pub struct Invocation {
    pub program: String,
    pub args: Vec<String>,
}

/// An HTTP status and a text body.
pub struct HttpReply {
    pub status: u16,
    pub body: String,
}

impl View for HttpReply {
    type V = (u16, Seq<char>);

    open spec fn view(&self) -> (u16, Seq<char>) {
        (self.status, self.body@)
    }
}

/// What a `/run` request leads to: a process to start, or an immediate reply.
pub enum RunPlan {
    Spawn(Invocation),
    Respond(HttpReply),
}

/// The abstract value of a `RunPlan`.
pub enum PlanView {
    Spawn { program: Seq<char>, args: Seq<Seq<char>> },
    Respond { status: u16, body: Seq<char> },
}

impl View for RunPlan {
    type V = PlanView;

    open spec fn view(&self) -> PlanView {
        match self {
            RunPlan::Spawn(inv) => PlanView::Spawn { program: inv.program@, args: inv.args.deep_view() },
            RunPlan::Respond(rep) => PlanView::Respond { status: rep.status, body: rep.body@ },
        }
    }
}

/// How a started process ended, as far as the reply depends on it.
pub enum ProcessOutcome {
    /// The process ran to completion; `success` is whether it exited with 0.
    Exited { success: bool, stdout: Vec<u8>, stderr: Vec<u8> },
    /// The process could not be started at all.
    SpawnFailed,
}

pub open spec fn unsupported_message() -> Seq<char> {
    "Unsupported language"@
}

pub open spec fn spawn_failed_message() -> Seq<char> {
    "Failed to execute code"@
}

pub open spec fn health_message() -> Seq<char> {
    "Server is running"@
}

/// The interpreter named by a language tag; only two tags are recognised.
pub open spec fn language_of(tag: Seq<char>) -> Option<Language> {
    if tag == "javascript"@ {
        Some(Language::JavaScript)
    } else if tag == "typescript"@ {
        Some(Language::TypeScript)
    } else {
        None
    }
}

/// The program that runs code of a language.
pub open spec fn program_of(lang: Language) -> Seq<char> {
    match lang {
        Language::JavaScript => "node"@,
        Language::TypeScript => "ts-node"@,
    }
}

/// The arguments that make an interpreter evaluate `code` inline.
pub open spec fn eval_args(code: Seq<char>) -> Seq<Seq<char>> {
    seq!["-e"@, code]
}

/// What a request with this code and language tag leads to.
pub open spec fn run_plan_of(code: Seq<char>, language: Seq<char>) -> PlanView {
    match language_of(language) {
        Some(lang) => PlanView::Spawn { program: program_of(lang), args: eval_args(code) },
        None => PlanView::Respond { status: STATUS_BAD_REQUEST, body: unsupported_message() },
    }
}

/// The store's content once a request has been taken in.
pub open spec fn store_after_run(before: Seq<char>, req: RunRequest) -> Seq<char> {
    req.code@
}

/// The reply for a process outcome.
pub open spec fn outcome_reply(o: ProcessOutcome) -> (u16, Seq<char>) {
    match o {
        ProcessOutcome::Exited { success, stdout, stderr } => if success {
            (STATUS_OK, lossy_utf8_of(stdout@))
        } else {
            (STATUS_INTERNAL_ERROR, lossy_utf8_of(stderr@))
        },
        ProcessOutcome::SpawnFailed => (STATUS_INTERNAL_ERROR, spawn_failed_message()),
    }
}

/// Reads a language tag.
pub fn parse_language(tag: &String) -> (r: Option<Language>)
    ensures
        r == language_of(tag@),
{
    let javascript = String::from_str("javascript");
    let typescript = String::from_str("typescript");
    if *tag == javascript {
        Some(Language::JavaScript)
    } else if *tag == typescript {
        Some(Language::TypeScript)
    } else {
        None
    }
}

/// The process that evaluates `code` with the interpreter of `lang`.
pub fn invocation_for(lang: Language, code: &String) -> (r: Invocation)
    ensures
        r.program@ == program_of(lang),
        r.args.deep_view() == eval_args(code@),
{
    let program = match lang {
        Language::JavaScript => String::from_str("node"),
        Language::TypeScript => String::from_str("ts-node"),
    };
    let mut args: Vec<String> = Vec::new();
    args.push(String::from_str("-e"));
    args.push(code.clone());
    assert(args.deep_view() =~= eval_args(code@));
    Invocation { program, args }
}

/// Takes in a `/run` request: stores its code, whatever comes next, and
/// decides whether to start an interpreter or to reject the language. The
/// decision depends on the request alone, never on what the store held.
pub fn plan_run(store: &mut CodeStore, req: &RunRequest) -> (r: RunPlan)
    ensures
        final(store)@ == store_after_run(old(store)@, *req),
        r@ == run_plan_of(req.code@, req.language@),
{
    store.set(req.code.clone());
    match parse_language(&req.language) {
        Some(lang) => RunPlan::Spawn(invocation_for(lang, &req.code)),
        None => RunPlan::Respond(
            HttpReply { status: STATUS_BAD_REQUEST, body: String::from_str("Unsupported language") },
        ),
    }
}

/// The reply for a process that ran to completion, given the decoded text
/// of the stream that the reply carries: standard output on success,
/// standard error otherwise.
pub fn reply_for_exit(success: bool, text: String) -> (r: HttpReply)
    ensures
        r@ == (if success { STATUS_OK } else { STATUS_INTERNAL_ERROR }, text@),
{
    if success {
        HttpReply { status: STATUS_OK, body: text }
    } else {
        HttpReply { status: STATUS_INTERNAL_ERROR, body: text }
    }
}

/// The reply for the outcome of a started interpreter.
pub fn reply_for_outcome(outcome: &ProcessOutcome) -> (r: HttpReply)
    ensures
        r@ == outcome_reply(*outcome),
{
    match outcome {
        ProcessOutcome::Exited { success, stdout, stderr } => {
            let text = if *success {
                decode_output(stdout)
            } else {
                decode_output(stderr)
            };
            reply_for_exit(*success, text)
        },
        ProcessOutcome::SpawnFailed => HttpReply {
            status: STATUS_INTERNAL_ERROR,
            body: String::from_str("Failed to execute code"),
        },
    }
}

/// The liveness reply; it reads no state.
pub fn health_reply() -> (r: HttpReply)
    ensures
        r@ == (STATUS_OK, health_message()),
{
    HttpReply { status: STATUS_OK, body: String::from_str("Server is running") }
}

/// A JavaScript request starts `node -e <code>`, and when that process exits
/// with 0 the reply is 200 carrying its standard output.
pub proof fn law_javascript_run_replies_stdout(req: RunRequest, outcome: ProcessOutcome)
    requires
        req.language@ == "javascript"@,
        outcome matches ProcessOutcome::Exited { success, .. } && success,
    ensures
        run_plan_of(req.code@, req.language@) == (PlanView::Spawn {
            program: "node"@,
            args: seq!["-e"@, req.code@],
        }),
        outcome matches ProcessOutcome::Exited { stdout, .. } && outcome_reply(outcome) == (
        STATUS_OK, lossy_utf8_of(stdout@)),
{
}

/// A request whose language tag is neither `javascript` nor `typescript` is
/// answered 400 with the fixed message, and no process is started.
pub proof fn law_unknown_language_rejected(code: Seq<char>, language: Seq<char>)
    requires
        language != "javascript"@,
        language != "typescript"@,
    ensures
        run_plan_of(code, language) == (PlanView::Respond {
            status: STATUS_BAD_REQUEST,
            body: unsupported_message(),
        }),
{
}

/// A started interpreter that exits with a non-zero status is answered 500
/// carrying its standard error.
pub proof fn law_failed_run_replies_stderr(code: Seq<char>, language: Seq<char>, outcome: ProcessOutcome)
    requires
        language_of(language) is Some,
        outcome matches ProcessOutcome::Exited { success, .. } && !success,
    ensures
        run_plan_of(code, language) is Spawn,
        outcome matches ProcessOutcome::Exited { stderr, .. } && outcome_reply(outcome) == (
        STATUS_INTERNAL_ERROR, lossy_utf8_of(stderr@)),
{
}

/// Whatever the store held before, once a run request has been taken in a
/// read of the store gives back that request's code.
pub proof fn law_read_after_run(before: Seq<char>, req: RunRequest)
    ensures
        store_after_run(before, req) == req.code@,
{
}

/// Each request is run on its own code: the process started for it
/// evaluates exactly the submitted text. What is started depends on the
/// request alone, not on what other requests have stored meanwhile.
pub proof fn law_run_uses_own_code(code: Seq<char>, language: Seq<char>)
    ensures
        run_plan_of(code, language) matches PlanView::Spawn { args, .. } ==> args.len() == 2
            && args[1] == code,
{
}

} // verus!
