//! A uniform way to turn a closed set of domain error variants into a
//! structured diagnostic record: a short stable code, an application-level
//! status code, a client-safe message, a server-only message, and a
//! content-derived fingerprint that correlates a client response with the
//! server log line without leaking internal detail.

pub mod app_code;
pub mod fingerprint;
pub mod generator;
pub mod metadata;

use vstd::prelude::*;
use vstd::string::StringExecFns;
use crate::app_code::{AppCodeParse, AppCodeParseError};
use crate::fingerprint::fingerprint_of;

verus! {

/// The diagnostic record for one error occurrence: the application-level
/// status code, the stable per-variant code, the fingerprint of the server
/// message, the client-safe message, and the full server-only message.
/// It is immutable after construction.
pub struct ErrorInfo<T> {
    pub app_code: T,
    pub code: &'static str,
    pub fingerprint: String,
    pub client_msg: &'static str,
    pub server_msg: String,
}

/// The capability of an error type: every variant can produce a
/// fully-populated `ErrorInfo`. Implementations are written per error
/// type, one case per variant with no catch-all, so that a new variant
/// without metadata fails to build rather than falling through.
pub trait ToErrorInfo {
    /// The application-code type declared in the error type's metadata.
    type T: AppCodeParse;

    /// Converts this error into its diagnostic record, or propagates the
    /// typed failure of the metadata's application-code parse.
    fn to_error_info(&self) -> Result<ErrorInfo<Self::T>, AppCodeParseError>;
}

/// The shape shared by the two textual renderings:
/// `[{code}-{fingerprint}] {message}`.
pub open spec fn rendering_of(code: Seq<char>, fp: Seq<char>, msg: Seq<char>) -> Seq<char> {
    seq!['['] + code + seq!['-'] + fp + seq![']', ' '] + msg
}

fn render_with(code: &str, fp: &str, msg: &str) -> (r: String)
    ensures
        r@ == rendering_of(code@, fp@, msg@),
{
    let mut r = String::new();
    r.append("[");
    r.append(code);
    r.append("-");
    r.append(fp);
    r.append("] ");
    r.append(msg);
    proof {
        reveal_strlit("[");
        reveal_strlit("-");
        reveal_strlit("] ");
        assert(r@ =~= rendering_of(code@, fp@, msg@));
    }
    r
}

impl<T> ErrorInfo<T> {
    /// A well-formed record's fingerprint is derived from its own server
    /// message; constructors establish this.
    pub open spec fn wf(&self) -> bool {
        self.fingerprint@ == fingerprint_of(self.server_msg@)
    }

    /// The message a client is shown: the declared client message, or the
    /// server message where no client message was declared.
    pub open spec fn client_msg_view(&self) -> Seq<char> {
        if self.client_msg@.len() == 0 {
            self.server_msg@
        } else {
            self.client_msg@
        }
    }

    /// Returns the declared client message when non-empty, and falls back
    /// to the server message otherwise.
    pub fn client_msg(&self) -> (r: &str)
        ensures
            r@ == self.client_msg_view(),
    {
        if self.client_msg.is_empty() {
            self.server_msg.as_str()
        } else {
            self.client_msg
        }
    }

    /// The client-facing rendering: `[{code}-{fingerprint}] {client_msg()}`.
    pub fn client_rendering(&self) -> (r: String)
        ensures
            r@ == rendering_of(self.code@, self.fingerprint@, self.client_msg_view()),
    {
        render_with(self.code, self.fingerprint.as_str(), self.client_msg())
    }

    /// The server/log rendering: `[{code}-{fingerprint}] {server_msg}`.
    pub fn server_rendering(&self) -> (r: String)
        ensures
            r@ == rendering_of(self.code@, self.fingerprint@, self.server_msg@),
    {
        render_with(self.code, self.fingerprint.as_str(), self.server_msg.as_str())
    }

    /// Total constructor from an already-parsed application code: every
    /// field is fixed exactly, and the fingerprint is computed from the
    /// server message.
    pub fn from_parts(
        app_code: T,
        code: &'static str,
        client_msg: &'static str,
        server_msg: String,
    ) -> (r: ErrorInfo<T>)
        ensures
            r.app_code == app_code,
            r.code@ == code@,
            r.client_msg@ == client_msg@,
            r.server_msg@ == server_msg@,
            r.fingerprint@ == fingerprint_of(server_msg@),
            r.wf(),
    {
        let fp = crate::fingerprint::fingerprint(server_msg.as_str());
        ErrorInfo { app_code, code, fingerprint: fp, client_msg, server_msg }
    }
}

impl<T: AppCodeParse> ErrorInfo<T> {
    /// Constructs the record: parses the textual application code into `T`
    /// and fingerprints the server message. Returns `Ok` exactly when the
    /// application code parses; a parse failure is propagated as a typed
    /// error carrying the offending text (it is never defaulted and never
    /// a panic).
    pub fn new(
        app_code: &str,
        code: &'static str,
        client_msg: &'static str,
        server_msg: String,
    ) -> (r: Result<ErrorInfo<T>, AppCodeParseError>)
        ensures
            match r {
                Ok(info) => {
                    &&& T::parse_spec(app_code@) == Some(info.app_code)
                    &&& info.code@ == code@
                    &&& info.client_msg@ == client_msg@
                    &&& info.server_msg@ == server_msg@
                    &&& info.fingerprint@ == fingerprint_of(server_msg@)
                    &&& info.wf()
                },
                Err(e) => {
                    &&& T::parse_spec(app_code@) is None
                    &&& e.input@ == app_code@
                },
            },
    {
        match T::parse_app_code(app_code) {
            Ok(t) => Ok(ErrorInfo::from_parts(t, code, client_msg, server_msg)),
            Err(e) => Err(e),
        }
    }
}

/// The two renderings of one record open with the same correlation
/// token: whatever the two messages hold, the renderings agree on every
/// character of `[{code}-{fingerprint}] `, so a client response and a
/// server log line can be matched on it.
pub proof fn lemma_renderings_share_correlation_token(
    code: Seq<char>,
    fp: Seq<char>,
    msg1: Seq<char>,
    msg2: Seq<char>,
)
    ensures
        ({
            let k = code.len() + fp.len() + 4;
            rendering_of(code, fp, msg1).take(k as int) == rendering_of(code, fp, msg2).take(
                k as int,
            )
        }),
{
    let k = (code.len() + fp.len() + 4) as int;
    assert(rendering_of(code, fp, msg1).take(k) =~= rendering_of(code, fp, msg2).take(k));
}

/// The client-facing rendering of a record with a non-empty declared
/// client message is independent of the server message: two records that
/// agree on code, fingerprint and declared client message render the same
/// client-facing text whatever their server messages hold.
pub proof fn lemma_client_rendering_hides_server_msg<T>(a: ErrorInfo<T>, b: ErrorInfo<T>)
    requires
        a.client_msg@.len() > 0,
        a.code@ == b.code@,
        a.fingerprint@ == b.fingerprint@,
        a.client_msg@ == b.client_msg@,
    ensures
        rendering_of(a.code@, a.fingerprint@, a.client_msg_view()) == rendering_of(
            b.code@,
            b.fingerprint@,
            b.client_msg_view(),
        ),
{
}

} // verus!
