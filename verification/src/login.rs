//! The Telegram login flow: phone number, then login code, then (with 2FA) the password.
//!
//! The session is generic over the login token `T` and the password token `P` that the
//! Telegram client hands out; it decides which step may run and what each outcome leaves.
use vstd::prelude::*;

verus! {

/// Why a login step cannot run.
#[derive(Debug, Clone, Copy, PartialEq, Eq)]
pub enum LoginError {
    /// The code step ran with no login started.
    NoPendingLogin,
    /// The password step ran with no login started.
    NoPending2fa,
    /// The password step ran while Telegram had not asked for a password.
    TwoFactorNotPending,
}

/// What the login code step gave back.
#[derive(Debug, Clone, PartialEq, Eq)]
pub enum CodeOutcome<P> {
    /// The code was right: the account is signed in.
    SignedIn,
    /// The code was right and the account has 2FA: the password token to answer.
    PasswordRequired(P),
    /// The code was refused.
    Rejected,
}

/// The reply of the code step to the HTTP client.
#[derive(Debug, Clone, Copy, PartialEq, Eq)]
pub enum CodeReply {
    /// Signed in: answer with the account.
    SignedIn,
    /// Answer 202 and ask for the 2FA password.
    PasswordRequired,
    /// Answer 401 with the sign-in error.
    Rejected,
}

/// A login in progress: its login token and, once Telegram asked for it, the password token.
#[derive(Debug, Clone, PartialEq, Eq)]
pub struct LoginState<T, P> {
    pub token: T,
    pub password: Option<P>,
}

/// The login state of the gateway.
pub struct LoginSession<T, P> {
    pending: Option<LoginState<T, P>>,
}

/// The abstract state: no login, or a login token with an optional password token.
pub type LoginView<T, P> = Option<(T, Option<P>)>;

impl<T, P> View for LoginSession<T, P> {
    type V = LoginView<T, P>;

    closed spec fn view(&self) -> LoginView<T, P> {
        match self.pending {
            None => None,
            Some(p) => Some((p.token, p.password)),
        }
    }
}

/// Starting a login discards any login in progress.
pub open spec fn start_step<T, P>(token: T) -> LoginView<T, P> {
    Some((token, None))
}

/// Whether the code step may run, and with which login token.
pub open spec fn code_token_step<T, P>(s: LoginView<T, P>) -> Result<T, LoginError> {
    match s {
        None => Err(LoginError::NoPendingLogin),
        Some((t, _)) => Ok(t),
    }
}

/// What the code step's outcome leaves and answers.
pub open spec fn code_step<T, P>(s: LoginView<T, P>, outcome: CodeOutcome<P>) -> (
    CodeReply,
    LoginView<T, P>,
) {
    match outcome {
        CodeOutcome::SignedIn => (CodeReply::SignedIn, None),
        CodeOutcome::PasswordRequired(p) => (
            CodeReply::PasswordRequired,
            match s {
                Some((t, _)) => Some((t, Some(p))),
                None => None,
            },
        ),
        CodeOutcome::Rejected => (CodeReply::Rejected, s),
    }
}

/// The password step takes the password token out of the state, whatever comes next.
pub open spec fn take_password_step<T, P>(s: LoginView<T, P>) -> (
    Result<P, LoginError>,
    LoginView<T, P>,
) {
    match s {
        None => (Err(LoginError::NoPending2fa), None),
        Some((t, None)) => (Err(LoginError::TwoFactorNotPending), Some((t, None))),
        Some((t, Some(p))) => (Ok(p), Some((t, None))),
    }
}

/// A checked password ends the login; a refused one leaves it without a password token.
pub open spec fn password_step<T, P>(s: LoginView<T, P>, accepted: bool) -> LoginView<T, P> {
    if accepted {
        None
    } else {
        s
    }
}

impl LoginError {
    /// The HTTP status of the refusal (409 Conflict).
    pub fn status(&self) -> (res: u16)
        ensures
            res == 409,
    {
        409
    }

    /// The message of the refusal.
    pub fn message(&self) -> (res: String)
        ensures
            res@ == match self {
                LoginError::NoPendingLogin => "no pending login"@,
                LoginError::NoPending2fa => "no pending 2FA login"@,
                LoginError::TwoFactorNotPending => "2FA not pending"@,
            },
    {
        match self {
            LoginError::NoPendingLogin => crate::text::string_of("no pending login"),
            LoginError::NoPending2fa => crate::text::string_of("no pending 2FA login"),
            LoginError::TwoFactorNotPending => crate::text::string_of("2FA not pending"),
        }
    }
}

impl CodeReply {
    /// The HTTP status of the reply.
    pub fn status(&self) -> (res: u16)
        ensures
            res == match self {
                CodeReply::SignedIn => 200u16,
                CodeReply::PasswordRequired => 202u16,
                CodeReply::Rejected => 401u16,
            },
    {
        match self {
            CodeReply::SignedIn => 200,
            CodeReply::PasswordRequired => 202,
            CodeReply::Rejected => 401,
        }
    }
}

/// The message that asks the client for the 2FA password.
pub fn password_required_message() -> (res: String)
    ensures
        res@ == "2FA password required"@,
{
    crate::text::string_of("2FA password required")
}

impl<T, P> LoginSession<T, P> {
    /// A session with no login in progress.
    pub fn new() -> (res: Self)
        ensures
            res@ == None::<(T, Option<P>)>,
    {
        LoginSession { pending: None }
    }

    /// Starts a login with the token that Telegram gave for the phone number.
    pub fn start(&mut self, token: T)
        ensures
            final(self)@ == start_step::<T, P>(token),
    {
        self.pending = Some(LoginState { token, password: None });
    }

    /// The login token for the code step, or why the step cannot run.
    pub fn code_token(&self) -> (res: Result<&T, LoginError>)
        ensures
            match res {
                Ok(t) => code_token_step(self@) == Ok::<T, LoginError>(*t),
                Err(e) => code_token_step(self@) == Err::<T, LoginError>(e),
            },
    {
        match &self.pending {
            None => Err(LoginError::NoPendingLogin),
            Some(p) => Ok(&p.token),
        }
    }

    /// Records what the code step gave back.
    pub fn finish_code(&mut self, outcome: CodeOutcome<P>) -> (reply: CodeReply)
        requires
            old(self)@ is Some,
        ensures
            (reply, final(self)@) == code_step(old(self)@, outcome),
    {
        match outcome {
            CodeOutcome::SignedIn => {
                self.pending = None;
                CodeReply::SignedIn
            },
            CodeOutcome::PasswordRequired(p) => {
                let cur = self.pending.take();
                match cur {
                    Some(pl) => {
                        self.pending = Some(LoginState { token: pl.token, password: Some(p) });
                    },
                    None => {},
                }
                CodeReply::PasswordRequired
            },
            CodeOutcome::Rejected => CodeReply::Rejected,
        }
    }

    /// Takes the password token for the password step, or says why the step cannot run.
    pub fn take_password(&mut self) -> (res: Result<P, LoginError>)
        ensures
            (res, final(self)@) == take_password_step(old(self)@),
    {
        let cur = self.pending.take();
        match cur {
            None => Err(LoginError::NoPending2fa),
            Some(pl) => {
                let LoginState { token, password } = pl;
                self.pending = Some(LoginState { token, password: None });
                match password {
                    None => Err(LoginError::TwoFactorNotPending),
                    Some(p) => Ok(p),
                }
            },
        }
    }

    /// Records whether Telegram accepted the password.
    pub fn finish_password(&mut self, accepted: bool)
        ensures
            final(self)@ == password_step(old(self)@, accepted),
    {
        if accepted {
            self.pending = None;
        }
    }
}

/// A password token answers at most one password attempt: right after it is taken, the
/// password step is refused until the code step asks for a password again.
pub proof fn lemma_password_single_use<T, P>(s: LoginView<T, P>)
    requires
        take_password_step(s).0 is Ok,
    ensures
        take_password_step(take_password_step(s).1).0 == Err::<P, LoginError>(
            LoginError::TwoFactorNotPending,
        ),
{
}

/// A fresh login asks for the code first: the password step is refused before it.
pub proof fn lemma_password_needs_code_step<T, P>(token: T)
    ensures
        take_password_step(start_step::<T, P>(token)).0 == Err::<P, LoginError>(
            LoginError::TwoFactorNotPending,
        ),
        code_token_step(start_step::<T, P>(token)) == Ok::<T, LoginError>(token),
{
}

/// Signing in, by code or by password, ends the login: both steps are then refused.
pub proof fn lemma_sign_in_ends_login<T, P>(s: LoginView<T, P>)
    requires
        s is Some,
    ensures
        code_token_step(code_step(s, CodeOutcome::SignedIn).1) == Err::<T, LoginError>(
            LoginError::NoPendingLogin,
        ),
        take_password_step(code_step(s, CodeOutcome::SignedIn).1).0 == Err::<P, LoginError>(
            LoginError::NoPending2fa,
        ),
        code_token_step(password_step(s, true)) == Err::<T, LoginError>(
            LoginError::NoPendingLogin,
        ),
{
}

/// After the code step asks for the password, the password step gets that very token,
/// and the login token is kept.
pub proof fn lemma_password_required_then_taken<T, P>(s: LoginView<T, P>, p: P)
    requires
        s is Some,
    ensures
        take_password_step(code_step(s, CodeOutcome::PasswordRequired(p)).1).0 == Ok::<
            P,
            LoginError,
        >(p),
        code_token_step(code_step(s, CodeOutcome::PasswordRequired(p)).1) == code_token_step(s),
{
}

/// A refused code keeps the login, so the code step can be tried again.
pub proof fn lemma_rejected_code_keeps_login<T, P>(s: LoginView<T, P>)
    ensures
        code_step(s, CodeOutcome::Rejected).1 == s,
{
}

/// One request of the login flow, with what Telegram answered to it.
pub enum LoginRequest<T, P> {
    /// `auth/start`: Telegram sent the code and gave this login token.
    Start(T),
    /// `auth/complete`: what the code step gave back, if the step runs.
    Code(CodeOutcome<P>),
    /// `auth/password`: whether Telegram accepts the password, if the step runs.
    Password(bool),
}

/// The answer to one request of the login flow.
pub enum LoginReply {
    /// The code was sent (200).
    Started,
    /// The code step ran and answered this.
    Code(CodeReply),
    /// The password step ran: signed in (200) or refused (401).
    Password(bool),
    /// The step could not run (409).
    Refused(LoginError),
}

/// What one request answers and leaves, as the session's operations do it.
pub open spec fn login_step<T, P>(s: LoginView<T, P>, r: LoginRequest<T, P>) -> (
    LoginReply,
    LoginView<T, P>,
) {
    match r {
        LoginRequest::Start(t) => (LoginReply::Started, start_step::<T, P>(t)),
        LoginRequest::Code(outcome) => match code_token_step(s) {
            Err(e) => (LoginReply::Refused(e), s),
            Ok(_) => (LoginReply::Code(code_step(s, outcome).0), code_step(s, outcome).1),
        },
        LoginRequest::Password(accepted) => match take_password_step(s).0 {
            Err(e) => (LoginReply::Refused(e), take_password_step(s).1),
            Ok(_) => (
                LoginReply::Password(accepted),
                password_step(take_password_step(s).1, accepted),
            ),
        },
    }
}

/// The state and the answers after a sequence of requests, starting from `s`.
pub open spec fn login_run<T, P>(s: LoginView<T, P>, reqs: Seq<LoginRequest<T, P>>) -> (
    LoginView<T, P>,
    Seq<LoginReply>,
)
    decreases reqs.len(),
{
    if reqs.len() == 0 {
        (s, Seq::empty())
    } else {
        let prev = login_run(s, reqs.drop_last());
        let step = login_step(prev.0, reqs.last());
        (step.1, prev.1.push(step.0))
    }
}

/// Whether, in the answers so far, a login was started and has not ended: the latest of
/// "code sent", "signed in by code" and "signed in by password" is "code sent".
pub open spec fn login_open(replies: Seq<LoginReply>) -> bool
    decreases replies.len(),
{
    if replies.len() == 0 {
        false
    } else {
        match replies.last() {
            LoginReply::Started => true,
            LoginReply::Code(CodeReply::SignedIn) => false,
            LoginReply::Password(true) => false,
            _ => login_open(replies.drop_last()),
        }
    }
}

/// Whether, in the answers so far, the password step is due: the latest of "code sent",
/// a code step that ran to an answer other than a refusal, and a password step that ran,
/// is a code step that asked for the password (202).
pub open spec fn password_due(replies: Seq<LoginReply>) -> bool
    decreases replies.len(),
{
    if replies.len() == 0 {
        false
    } else {
        match replies.last() {
            LoginReply::Code(CodeReply::PasswordRequired) => true,
            LoginReply::Started => false,
            LoginReply::Code(CodeReply::SignedIn) => false,
            LoginReply::Password(_) => false,
            _ => password_due(replies.drop_last()),
        }
    }
}

/// Over any sequence of login requests from no login: a login is pending exactly while one
/// was started and not ended, and a password token is held exactly while the password step
/// is due.
pub proof fn lemma_login_run_state<T, P>(reqs: Seq<LoginRequest<T, P>>)
    ensures
        (login_run(None::<(T, Option<P>)>, reqs).0 is Some) == login_open(
            login_run(None::<(T, Option<P>)>, reqs).1,
        ),
        (login_run(None::<(T, Option<P>)>, reqs).0 matches Some((_, Some(_)))) == password_due(
            login_run(None::<(T, Option<P>)>, reqs).1,
        ),
    decreases reqs.len(),
{
    if reqs.len() > 0 {
        lemma_login_run_state(reqs.drop_last());
        let prev = login_run(None::<(T, Option<P>)>, reqs.drop_last());
        let step = login_step(prev.0, reqs.last());
        assert(prev.1.push(step.0).drop_last() =~= prev.1);
    }
}

/// The login flow over whole request sequences (phone, then code, then an optional 2FA
/// password), from no login: the password step signs in only when, since the last code
/// was sent, a code step asked for the password and no password step ran after it; and
/// every sign-in, by code or by password, ends the login.
pub proof fn lemma_login_sequence<T, P>(reqs: Seq<LoginRequest<T, P>>)
    ensures
        ({
            let run = login_run(None::<(T, Option<P>)>, reqs.push(LoginRequest::Password(true)));
            (run.1.last() == LoginReply::Password(true)) == password_due(
                login_run(None::<(T, Option<P>)>, reqs).1,
            )
        }),
        ({
            let run = login_run(None::<(T, Option<P>)>, reqs);
            reqs.len() > 0 && (run.1.last() == LoginReply::Code(CodeReply::SignedIn)
                || run.1.last() == LoginReply::Password(true)) ==> run.0 is None
        }),
{
    lemma_login_run_state(reqs);
    let ext = reqs.push(LoginRequest::<T, P>::Password(true));
    assert(ext.drop_last() =~= reqs);
    if reqs.len() > 0 {
        let prev = login_run(None::<(T, Option<P>)>, reqs.drop_last());
        let step = login_step(prev.0, reqs.last());
        assert(prev.1.push(step.0).last() == step.0);
    }
}

} // verus!
