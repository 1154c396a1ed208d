//! The login protocol as a state machine.
//!
//! A login attempt walks `Idle → ChallengeRequested → Signing →
//! ConfirmPending → Authenticated`, with `Failed` reachable from every
//! non-terminal state. The machine decides; the shell around the crate
//! performs the emitted actions — fetching the challenge, writing the
//! challenge file, invoking the signing tool, posting the confirmation,
//! persisting the token and removing the transient artifacts — and feeds
//! the results back as events. The transient challenge and signature
//! files are modelled by `artifacts_present`: every transition into a
//! terminal state clears it and orders their removal, so a finished
//! attempt, successful or not, leaves nothing behind.

use vstd::prelude::*;

use crate::certs::CertificateInfo;
use crate::errors::CoreError;
use crate::subject::{attr_value, attr_value_in};
use crate::text::{push_char, trim_blanks, trimmed};

verus! {

/// How the signing tool is told which key to use: the certificate's
/// normalized thumbprint where one exists, else its common name.
pub enum SignerSelector {
    Thumbprint(String),
    CommonName(String),
}

impl SignerSelector {
    /// A copy whose contents equal the original's.
    pub fn duplicate(&self) -> (r: SignerSelector)
        ensures
            r == *self,
    {
        match self {
            SignerSelector::Thumbprint(t) => SignerSelector::Thumbprint(t.clone()),
            SignerSelector::CommonName(c) => SignerSelector::CommonName(c.clone()),
        }
    }
}

/// An ASCII lowercase letter raised to its uppercase form; anything else
/// unchanged.
pub open spec fn upper_ascii(c: char) -> char {
    if 'a' <= c && c <= 'z' {
        ((c as int) - 32) as char
    } else {
        c
    }
}

/// A thumbprint as the signing tool wants it: colons and spaces removed,
/// ASCII letters raised to uppercase.
pub open spec fn normalized_thumbprint(s: Seq<char>) -> Seq<char>
    decreases s.len(),
{
    if s.len() == 0 {
        Seq::<char>::empty()
    } else {
        normalized_thumbprint(s.drop_last()) + if s.last() == ':' || s.last() == ' ' {
            Seq::<char>::empty()
        } else {
            seq![upper_ascii(s.last())]
        }
    }
}

/// Normalizes a thumbprint string.
pub fn normalize_thumbprint(s: &str) -> (r: String)
    ensures
        r@ == normalized_thumbprint(s@),
{
    let n = s.unicode_len();
    let mut out = String::new();
    let mut i: usize = 0;
    assert(s@.subrange(0, 0) =~= Seq::<char>::empty());
    while i < n
        invariant
            n == s@.len(),
            0 <= i <= n,
            out@ == normalized_thumbprint(s@.subrange(0, i as int)),
        decreases n - i,
    {
        let c = s.get_char(i);
        if c != ':' && c != ' ' {
            let u: char = if 'a' <= c && c <= 'z' {
                (((c as u8) - 32) as char)
            } else {
                c
            };
            assert(u == upper_ascii(c));
            push_char(&mut out, u);
        }
        proof {
            let pre = s@.subrange(0, i + 1);
            assert(pre.drop_last() =~= s@.subrange(0, i as int));
            assert(pre.last() == s@[i as int]);
            assert(out@ =~= normalized_thumbprint(pre));
        }
        i = i + 1;
    }
    assert(s@.subrange(0, n as int) =~= s@);
    out
}

/// The common name used when the thumbprint is empty.
pub open spec fn fallback_common_name(subject: Seq<char>) -> Seq<char> {
    match attr_value_in(subject, "CN="@) {
        Option::Some(v) => v,
        Option::None => Seq::<char>::empty(),
    }
}

/// Chooses the signing-key selector for a certificate: its thumbprint,
/// normalized, where that leaves anything; else its common name.
pub fn signing_selector(cert: &CertificateInfo) -> (r: SignerSelector)
    ensures
        normalized_thumbprint(cert.thumbprint@).len() > 0 ==> (r
            matches SignerSelector::Thumbprint(t) && t@ == normalized_thumbprint(
            cert.thumbprint@,
        )),
        normalized_thumbprint(cert.thumbprint@).len() == 0 ==> (r
            matches SignerSelector::CommonName(c) && c@ == fallback_common_name(
            cert.subject_name@,
        )),
{
    let thumb = normalize_thumbprint(cert.thumbprint.as_str());
    if thumb.as_str().unicode_len() > 0 {
        SignerSelector::Thumbprint(thumb)
    } else {
        SignerSelector::CommonName(attr_value(cert.subject_name.as_str(), "CN="))
    }
}

/// A raw signature with every carriage return and line feed removed.
pub open spec fn without_line_breaks(s: Seq<char>) -> Seq<char>
    decreases s.len(),
{
    if s.len() == 0 {
        Seq::<char>::empty()
    } else {
        without_line_breaks(s.drop_last()) + if s.last() == '\r' || s.last() == '\n' {
            Seq::<char>::empty()
        } else {
            seq![s.last()]
        }
    }
}

/// The signature as it is posted: line breaks removed, surrounding blanks
/// stripped.
pub open spec fn cleaned_signature(s: Seq<char>) -> Seq<char> {
    trimmed(without_line_breaks(s))
}

/// Cleans a raw signature read back from the signing tool.
pub fn clean_signature(raw: &str) -> (r: String)
    ensures
        r@ == cleaned_signature(raw@),
{
    let n = raw.unicode_len();
    let mut flat = String::new();
    let mut i: usize = 0;
    assert(raw@.subrange(0, 0) =~= Seq::<char>::empty());
    while i < n
        invariant
            n == raw@.len(),
            0 <= i <= n,
            flat@ == without_line_breaks(raw@.subrange(0, i as int)),
        decreases n - i,
    {
        let c = raw.get_char(i);
        if c != '\r' && c != '\n' {
            push_char(&mut flat, c);
        }
        proof {
            let pre = raw@.subrange(0, i + 1);
            assert(pre.drop_last() =~= raw@.subrange(0, i as int));
            assert(pre.last() == raw@[i as int]);
            assert(flat@ =~= without_line_breaks(pre));
        }
        i = i + 1;
    }
    assert(raw@.subrange(0, n as int) =~= raw@);
    trim_blanks(flat.as_str())
}

/// The JSON body posted to confirm a signed challenge.
pub open spec fn sign_in_body_spec(uuid: Seq<char>, signature: Seq<char>) -> Seq<char> {
    "{\"uuid\":"@ + crate::encode::json_string(uuid) + ",\"data\":"@ + crate::encode::json_string(
        signature,
    ) + "}"@
}

/// Frames the challenge id and the cleaned signature as the confirmation
/// body.
pub fn sign_in_body_json(uuid: &str, signature: &str) -> (r: String)
    ensures
        r@ == sign_in_body_spec(uuid@, signature@),
{
    let mut out = String::new();
    out.append("{\"uuid\":");
    crate::encode::push_json_string(&mut out, uuid);
    out.append(",\"data\":");
    crate::encode::push_json_string(&mut out, signature);
    out.append("}");
    assert(out@ =~= sign_in_body_spec(uuid@, signature@));
    out
}

/// Where a login attempt stands.
pub enum AuthState {
    Idle,
    ChallengeRequested,
    Signing { uuid: String },
    ConfirmPending { uuid: String },
    Authenticated { token: String },
    Failed { error: CoreError },
}

/// Whether an attempt is over, well or badly.
pub open spec fn is_terminal(state: AuthState) -> bool {
    state is Authenticated || state is Failed
}

/// One login attempt: its stage, the chosen signing-key selector, and
/// whether the transient challenge/signature files currently exist (on
/// the understanding that the shell performs every emitted action).
pub struct AuthSession {
    pub selector: SignerSelector,
    pub state: AuthState,
    pub artifacts_present: bool,
}

impl AuthSession {
    /// A session that is over holds no transient artifacts.
    pub open spec fn wf(self) -> bool {
        is_terminal(self.state) ==> !self.artifacts_present
    }
}

/// What the shell reports back to the machine.
pub enum AuthEvent {
    Started,
    ChallengeReceived { uuid: String, payload: String },
    ChallengeFailed { error: CoreError },
    SignatureProduced { raw: String },
    SigningFailed { error: CoreError },
    ConfirmAccepted { token: String },
    ConfirmRejected { error: CoreError },
}

/// What the shell is told to do next.
pub enum AuthAction {
    FetchChallenge,
    WriteChallengeFile { payload: String },
    InvokeSigner { selector: SignerSelector },
    PostConfirmation { uuid: String, signature: String },
    PersistToken { token: String },
    RemoveArtifacts,
    StartSubmissionRound,
}

/// The transition relation of the machine: what the next session and the
/// emitted actions must be for each state and event. An event that does
/// not belong to the current stage changes nothing.
pub open spec fn auth_step_rel(
    pre: AuthSession,
    event: AuthEvent,
    post: AuthSession,
    actions: Seq<AuthAction>,
) -> bool {
    &&& post.selector == pre.selector
    &&& match (pre.state, event) {
        (AuthState::Idle, AuthEvent::Started) => {
            &&& post.state is ChallengeRequested
            &&& post.artifacts_present == pre.artifacts_present
            &&& actions =~= seq![AuthAction::FetchChallenge]
        },
        (AuthState::ChallengeRequested, AuthEvent::ChallengeReceived { uuid, payload }) => {
            &&& post.state matches AuthState::Signing { uuid: u } && u == uuid
            &&& post.artifacts_present == true
            &&& actions.len() == 2
            &&& actions[0] matches AuthAction::WriteChallengeFile { payload: p } && p == payload
            &&& actions[1] matches AuthAction::InvokeSigner { selector: s } && s == pre.selector
        },
        (AuthState::ChallengeRequested, AuthEvent::ChallengeFailed { error }) => {
            &&& post.state matches AuthState::Failed { error: e } && e == error
            &&& post.artifacts_present == false
            &&& actions =~= seq![AuthAction::RemoveArtifacts]
        },
        (AuthState::Signing { uuid }, AuthEvent::SignatureProduced { raw }) => {
            if cleaned_signature(raw@).len() == 0 {
                &&& post.state matches AuthState::Failed { error: e } && e is SigningError
                &&& post.artifacts_present == false
                &&& actions =~= seq![AuthAction::RemoveArtifacts]
            } else {
                &&& post.state matches AuthState::ConfirmPending { uuid: u } && u == uuid
                &&& post.artifacts_present == true
                &&& actions.len() == 1
                &&& actions[0] matches AuthAction::PostConfirmation { uuid: u, signature: sg }
                    && u == uuid && sg@ == cleaned_signature(raw@)
            }
        },
        (AuthState::Signing { .. }, AuthEvent::SigningFailed { error }) => {
            &&& post.state matches AuthState::Failed { error: e } && e == error
            &&& post.artifacts_present == false
            &&& actions =~= seq![AuthAction::RemoveArtifacts]
        },
        (AuthState::ConfirmPending { .. }, AuthEvent::ConfirmAccepted { token }) => {
            &&& post.state matches AuthState::Authenticated { token: t } && t == token
            &&& post.artifacts_present == false
            &&& actions.len() == 3
            &&& actions[0] matches AuthAction::PersistToken { token: t } && t == token
            &&& actions[1] is RemoveArtifacts
            &&& actions[2] is StartSubmissionRound
        },
        (AuthState::ConfirmPending { .. }, AuthEvent::ConfirmRejected { error }) => {
            &&& post.state matches AuthState::Failed { error: e } && e == error
            &&& post.artifacts_present == false
            &&& actions =~= seq![AuthAction::RemoveArtifacts]
        },
        (state, _) => {
            &&& post.state == state
            &&& post.artifacts_present == pre.artifacts_present
            &&& actions =~= Seq::<AuthAction>::empty()
        },
    }
}

impl AuthSession {
    /// Opens a fresh attempt for the chosen certificate.
    pub fn begin(cert: &CertificateInfo) -> (r: AuthSession)
        ensures
            r.state is Idle,
            r.artifacts_present == false,
            r.wf(),
            normalized_thumbprint(cert.thumbprint@).len() > 0 ==> (r.selector
                matches SignerSelector::Thumbprint(t) && t@ == normalized_thumbprint(
                cert.thumbprint@,
            )),
            normalized_thumbprint(cert.thumbprint@).len() == 0 ==> (r.selector
                matches SignerSelector::CommonName(c) && c@ == fallback_common_name(
                cert.subject_name@,
            )),
    {
        AuthSession {
            selector: signing_selector(cert),
            state: AuthState::Idle,
            artifacts_present: false,
        }
    }

    /// One transition of the login machine.
    ///
    /// Law: an attempt that has ended — `Authenticated` or `Failed`, for
    /// any reason — holds no transient artifacts: every path into a
    /// terminal state clears them and orders their removal.
    pub fn step(self, event: AuthEvent) -> (r: (AuthSession, Vec<AuthAction>))
        ensures
            auth_step_rel(self, event, r.0, r.1@),
            self.wf() ==> r.0.wf(),
    {
        match (self.state, event) {
            (AuthState::Idle, AuthEvent::Started) => {
                let next = AuthSession {
                    selector: self.selector,
                    state: AuthState::ChallengeRequested,
                    artifacts_present: self.artifacts_present,
                };
                let mut actions: Vec<AuthAction> = Vec::new();
                actions.push(AuthAction::FetchChallenge);
                (next, actions)
            },
            (AuthState::ChallengeRequested, AuthEvent::ChallengeReceived { uuid, payload }) => {
                let invoke = AuthAction::InvokeSigner { selector: self.selector.duplicate() };
                let next = AuthSession {
                    selector: self.selector,
                    state: AuthState::Signing { uuid },
                    artifacts_present: true,
                };
                let mut actions: Vec<AuthAction> = Vec::new();
                actions.push(AuthAction::WriteChallengeFile { payload });
                actions.push(invoke);
                (next, actions)
            },
            (AuthState::ChallengeRequested, AuthEvent::ChallengeFailed { error }) => {
                let next = AuthSession {
                    selector: self.selector,
                    state: AuthState::Failed { error },
                    artifacts_present: false,
                };
                let mut actions: Vec<AuthAction> = Vec::new();
                actions.push(AuthAction::RemoveArtifacts);
                (next, actions)
            },
            (AuthState::Signing { uuid }, AuthEvent::SignatureProduced { raw }) => {
                let cleaned = clean_signature(raw.as_str());
                if cleaned.as_str().unicode_len() == 0 {
                    let next = AuthSession {
                        selector: self.selector,
                        state: AuthState::Failed {
                            error: CoreError::SigningError(
                                String::from_str("Подпись пустая после очистки"),
                            ),
                        },
                        artifacts_present: false,
                    };
                    let mut actions: Vec<AuthAction> = Vec::new();
                    actions.push(AuthAction::RemoveArtifacts);
                    (next, actions)
                } else {
                    let uuid_copy = uuid.clone();
                    let next = AuthSession {
                        selector: self.selector,
                        state: AuthState::ConfirmPending { uuid },
                        artifacts_present: true,
                    };
                    let mut actions: Vec<AuthAction> = Vec::new();
                    actions.push(
                        AuthAction::PostConfirmation { uuid: uuid_copy, signature: cleaned },
                    );
                    (next, actions)
                }
            },
            (AuthState::Signing { uuid: _ }, AuthEvent::SigningFailed { error }) => {
                let next = AuthSession {
                    selector: self.selector,
                    state: AuthState::Failed { error },
                    artifacts_present: false,
                };
                let mut actions: Vec<AuthAction> = Vec::new();
                actions.push(AuthAction::RemoveArtifacts);
                (next, actions)
            },
            (AuthState::ConfirmPending { uuid: _ }, AuthEvent::ConfirmAccepted { token }) => {
                let token_copy = token.clone();
                let next = AuthSession {
                    selector: self.selector,
                    state: AuthState::Authenticated { token },
                    artifacts_present: false,
                };
                let mut actions: Vec<AuthAction> = Vec::new();
                actions.push(AuthAction::PersistToken { token: token_copy });
                actions.push(AuthAction::RemoveArtifacts);
                actions.push(AuthAction::StartSubmissionRound);
                (next, actions)
            },
            (AuthState::ConfirmPending { uuid: _ }, AuthEvent::ConfirmRejected { error }) => {
                let next = AuthSession {
                    selector: self.selector,
                    state: AuthState::Failed { error },
                    artifacts_present: false,
                };
                let mut actions: Vec<AuthAction> = Vec::new();
                actions.push(AuthAction::RemoveArtifacts);
                (next, actions)
            },
            (state, _) => {
                let next = AuthSession {
                    selector: self.selector,
                    state,
                    artifacts_present: self.artifacts_present,
                };
                (next, Vec::new())
            },
        }
    }
}

} // verus!
