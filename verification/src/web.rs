//! Admission control: a submitted batch is admitted only if it has an
//! acceptable size, its partner is known and enabled, and its user has
//! authorized that partner. An admitted batch gets a fresh token and is
//! handed to the publish side.
//!
//! The admission decides; it performs no lookup itself. Whoever drives it
//! asks it what it wants, gets that, and reports back.

use vstd::prelude::*;
use crate::api::{batch_size_ok, BatchView, ErrorResponse, Events, OkResponse};
use crate::dal::authorized_partners_by_user::Error as AuthorizationError;
use crate::dal::partners::{Error as PartnerError, Partner, PartnerView};
use crate::stream::AdmittedView;

verus! {

/// Why a batch was not admitted.
#[derive(Debug, PartialEq, Eq)]
pub enum AdmissionError {
    /// The batch is malformed; nothing was looked up.
    Validation(String),
    /// The partner is disabled, or the user has not authorized it.
    Forbidden(String),
    /// A directory failed; the text is its error's description.
    Upstream(String),
}

/// The mathematical content of a refusal.
pub ghost enum Refusal {
    Validation(Seq<char>),
    Forbidden(Seq<char>),
    Upstream(Seq<char>),
}

impl View for AdmissionError {
    type V = Refusal;

    open spec fn view(&self) -> Refusal {
        match self {
            AdmissionError::Validation(reason) => Refusal::Validation(reason@),
            AdmissionError::Forbidden(reason) => Refusal::Forbidden(reason@),
            AdmissionError::Upstream(reason) => Refusal::Upstream(reason@),
        }
    }
}

impl Refusal {
    /// The HTTP status that reports the refusal.
    pub open spec fn status(self) -> int {
        match self {
            Refusal::Validation(_) => 400,
            Refusal::Forbidden(_) => 403,
            Refusal::Upstream(_) => 500,
        }
    }

    /// The reason given to the client.
    pub open spec fn reason(self) -> Seq<char> {
        match self {
            Refusal::Validation(reason) => reason,
            Refusal::Forbidden(reason) => reason,
            Refusal::Upstream(reason) => reason,
        }
    }
}

impl AdmissionError {
    /// The HTTP status that reports the refusal: 400 for a malformed batch,
    /// 403 for a denial, 500 for a failed directory.
    pub fn status_code(&self) -> (code: u16)
        ensures
            code == self@.status(),
    {
        match self {
            AdmissionError::Validation(_) => 400,
            AdmissionError::Forbidden(_) => 403,
            AdmissionError::Upstream(_) => 500,
        }
    }

    /// The response body that reports the refusal.
    pub fn to_response(&self) -> (body: ErrorResponse)
        ensures
            body@ == self@.reason(),
    {
        match self {
            AdmissionError::Validation(reason) => ErrorResponse { error: reason.clone() },
            AdmissionError::Forbidden(reason) => ErrorResponse { error: reason.clone() },
            AdmissionError::Upstream(reason) => ErrorResponse { error: reason.clone() },
        }
    }
}

/// The number of characters of a token.
pub const TOKEN_LENGTH: usize = 36;

/// Whether a character is a digit or one of the letters `a` to `f`.
pub open spec fn lower_hex(c: char) -> bool {
    ('0' <= c && c <= '9') || ('a' <= c && c <= 'f')
}

/// Whether a text has the form of a token: five groups of hexadecimal
/// digits in lower case, of 8, 4, 4, 4 and 12 digits, with a hyphen between
/// each two.
pub open spec fn is_token(token: Seq<char>) -> bool {
    &&& token.len() == TOKEN_LENGTH
    &&& forall|i: int|
        0 <= i < token.len() ==> if i == 8 || i == 13 || i == 18 || i == 23 {
            token[i] == '-'
        } else {
            lower_hex(#[trigger] token[i])
        }
}

/// `uuid::Uuid::new_v4`, written out in hyphenated form. The contract claims
/// the shape of that form; which token comes is left open, as it is drawn
/// at random. The crate panics where the system has no random bytes to
/// give.
#[verifier::external_body]
fn new_token() -> (token: String)
    ensures
        is_token(token@),
{
    uuid::Uuid::new_v4().to_hyphenated().to_string()
}

/// What the driver reports to an admission.
pub enum Report {
    /// The partner directory's answer for the batch's partner.
    Partner(Result<Partner, PartnerError>),
    /// The authorization directory's answer for the batch's user and partner.
    Authorization(Result<bool, AuthorizationError>),
    /// A fresh token.
    Token(String),
}

/// The mathematical content of a report; a directory's failure counts by
/// its description.
pub ghost enum ReportView {
    Partner(Result<PartnerView, Seq<char>>),
    Authorization(Result<bool, Seq<char>>),
    Token(Seq<char>),
}

impl View for Report {
    type V = ReportView;

    open spec fn view(&self) -> ReportView {
        match self {
            Report::Partner(Ok(partner)) => ReportView::Partner(Ok(partner@)),
            Report::Partner(Err(error)) => ReportView::Partner(Err(error.description())),
            Report::Authorization(Ok(authorized)) => ReportView::Authorization(Ok(*authorized)),
            Report::Authorization(Err(error)) => ReportView::Authorization(
                Err(error.description()),
            ),
            Report::Token(token) => ReportView::Token(token@),
        }
    }
}

/// What an admission wants from its driver.
#[derive(Clone, Copy, Debug, PartialEq, Eq, Structural)]
pub enum Wanted {
    /// The partner directory's answer for the batch's partner.
    Partner,
    /// The authorization directory's answer for the batch's user and partner.
    Authorization,
    /// A fresh token.
    Token,
    /// Nothing more: the admission has ended.
    Nothing,
}

/// The admission of one batch.
#[derive(Debug, PartialEq, Eq)]
pub enum Admission {
    /// The batch is well-formed; its partner is being looked up.
    CheckingPartner { batch: Events },
    /// The partner is enabled; the user's authorization is being looked up.
    CheckingAuthorization { batch: Events },
    /// The batch is admitted and waits for its token.
    MintingToken { batch: Events },
    /// The batch has its token and is ready to be handed to the publish side.
    Admitted { events: crate::stream::Events },
    /// The batch was refused.
    Rejected { error: AdmissionError },
}

/// The mathematical content of an admission.
pub ghost enum AdmissionView {
    CheckingPartner { batch: BatchView },
    CheckingAuthorization { batch: BatchView },
    MintingToken { batch: BatchView },
    Admitted { events: AdmittedView },
    Rejected { error: Refusal },
}

impl View for Admission {
    type V = AdmissionView;

    open spec fn view(&self) -> AdmissionView {
        match self {
            Admission::CheckingPartner { batch } => AdmissionView::CheckingPartner { batch: batch@ },
            Admission::CheckingAuthorization { batch } => AdmissionView::CheckingAuthorization {
                batch: batch@,
            },
            Admission::MintingToken { batch } => AdmissionView::MintingToken { batch: batch@ },
            Admission::Admitted { events } => AdmissionView::Admitted { events: events@ },
            Admission::Rejected { error } => AdmissionView::Rejected { error: error@ },
        }
    }
}

/// The state in which the admission of `batch` begins: refused at once if
/// the batch is empty or too large, else waiting for the partner.
pub open spec fn begun(batch: BatchView) -> AdmissionView {
    if batch.events.len() == 0 {
        AdmissionView::Rejected {
            error: Refusal::Validation("Events array must not be empty."@),
        }
    } else if batch.events.len() > crate::api::MAX_EVENTS {
        AdmissionView::Rejected {
            error: Refusal::Validation("Events array must not be larger than 100 events."@),
        }
    } else {
        AdmissionView::CheckingPartner { batch }
    }
}

/// The state after a report. A report that the state does not want changes
/// nothing.
pub open spec fn after(state: AdmissionView, report: ReportView) -> AdmissionView {
    match (state, report) {
        (AdmissionView::CheckingPartner { batch }, ReportView::Partner(answer)) => match answer {
            Ok(partner) => if partner.enabled {
                AdmissionView::CheckingAuthorization { batch }
            } else {
                AdmissionView::Rejected { error: Refusal::Forbidden("Partner must be enabled."@) }
            },
            Err(description) => AdmissionView::Rejected { error: Refusal::Upstream(description) },
        },
        (
            AdmissionView::CheckingAuthorization { batch },
            ReportView::Authorization(answer),
        ) => match answer {
            Ok(authorized) => if authorized {
                AdmissionView::MintingToken { batch }
            } else {
                AdmissionView::Rejected {
                    error: Refusal::Forbidden("User has not autorized partner."@),
                }
            },
            Err(description) => AdmissionView::Rejected { error: Refusal::Upstream(description) },
        },
        (AdmissionView::MintingToken { batch }, ReportView::Token(token)) => AdmissionView::Admitted {
            events: AdmittedView { token, events: batch.events },
        },
        _ => state,
    }
}

/// What a state wants from its driver.
pub open spec fn wanted_by(state: AdmissionView) -> Wanted {
    match state {
        AdmissionView::CheckingPartner { batch } => Wanted::Partner,
        AdmissionView::CheckingAuthorization { batch } => Wanted::Authorization,
        AdmissionView::MintingToken { batch } => Wanted::Token,
        _ => Wanted::Nothing,
    }
}

/// The state after a sequence of reports, taken in order.
pub open spec fn after_all(state: AdmissionView, reports: Seq<ReportView>) -> AdmissionView
    decreases reports.len(),
{
    if reports.len() == 0 {
        state
    } else {
        after_all(after(state, reports[0]), reports.drop_first())
    }
}

impl Admission {
    /// Begins the admission of a batch. An empty batch and one with more
    /// than 100 events are refused before anything is looked up.
    pub fn begin(batch: Events) -> (state: Admission)
        ensures
            state@ == begun(batch@),
    {
        if batch.events.len() == 0 {
            Admission::Rejected {
                error: AdmissionError::Validation("Events array must not be empty.".to_owned()),
            }
        } else if batch.events.len() > crate::api::MAX_EVENTS {
            Admission::Rejected {
                error: AdmissionError::Validation(
                    "Events array must not be larger than 100 events.".to_owned(),
                ),
            }
        } else {
            Admission::CheckingPartner { batch }
        }
    }

    /// What the admission wants next.
    pub fn wanted(&self) -> (wanted: Wanted)
        ensures
            wanted == wanted_by(self@),
    {
        match self {
            Admission::CheckingPartner { batch } => Wanted::Partner,
            Admission::CheckingAuthorization { batch } => Wanted::Authorization,
            Admission::MintingToken { batch } => Wanted::Token,
            _ => Wanted::Nothing,
        }
    }

    /// The batch under admission, while it has neither a token nor a refusal.
    pub fn batch(&self) -> (batch: Option<&Events>)
        ensures
            match *self {
                Admission::CheckingPartner { batch: held } => batch == Some(&held),
                Admission::CheckingAuthorization { batch: held } => batch == Some(&held),
                Admission::MintingToken { batch: held } => batch == Some(&held),
                _ => batch is None,
            },
    {
        match self {
            Admission::CheckingPartner { batch } => Some(batch),
            Admission::CheckingAuthorization { batch } => Some(batch),
            Admission::MintingToken { batch } => Some(batch),
            _ => None,
        }
    }

    /// Takes a report. An answer of the partner directory admits an enabled
    /// partner to the authorization check and refuses a disabled one; an
    /// answer of the authorization directory admits an authorized batch and
    /// refuses another; a directory's failure refuses the batch with the
    /// failure's description; a token completes an admitted batch.
    pub fn on_report(self, report: Report) -> (next: Admission)
        ensures
            next@ == after(self@, report@),
            after(self@, report@) == self@ ==> next == self,
    {
        match self {
            Admission::CheckingPartner { batch } => match report {
                Report::Partner(Ok(partner)) => if partner.enabled {
                    Admission::CheckingAuthorization { batch }
                } else {
                    Admission::Rejected {
                        error: AdmissionError::Forbidden("Partner must be enabled.".to_owned()),
                    }
                },
                Report::Partner(Err(error)) => Admission::Rejected {
                    error: AdmissionError::Upstream(error.message()),
                },
                _ => Admission::CheckingPartner { batch },
            },
            Admission::CheckingAuthorization { batch } => match report {
                Report::Authorization(Ok(authorized)) => if authorized {
                    Admission::MintingToken { batch }
                } else {
                    Admission::Rejected {
                        error: AdmissionError::Forbidden(
                            "User has not autorized partner.".to_owned(),
                        ),
                    }
                },
                Report::Authorization(Err(error)) => Admission::Rejected {
                    error: AdmissionError::Upstream(error.message()),
                },
                _ => Admission::CheckingAuthorization { batch },
            },
            Admission::MintingToken { batch } => match report {
                Report::Token(token) => Admission::Admitted {
                    events: crate::stream::Events { token, events: batch.events },
                },
                _ => Admission::MintingToken { batch },
            },
            other => other,
        }
    }

    /// Gives an admitted batch a fresh random token. An admission that does
    /// not wait for a token is left as it is.
    pub fn mint(self) -> (next: Admission)
        ensures
            match self@ {
                AdmissionView::MintingToken { batch } => {
                    &&& next@ matches AdmissionView::Admitted { events }
                    &&& events.events == batch.events
                    &&& is_token(events.token)
                },
                _ => next == self,
            },
    {
        match self {
            Admission::MintingToken { batch } => {
                Admission::MintingToken { batch }.on_report(Report::Token(new_token()))
            },
            other => other,
        }
    }

    /// How the admission ended: the admitted batch, which is to be put on the
    /// hand-off channel and answered with its token, or the refusal, for
    /// which nothing is handed on. `None` while it has not ended.
    pub fn into_outcome(self) -> (outcome: Option<Result<crate::stream::Events, AdmissionError>>)
        ensures
            match self {
                Admission::Admitted { events } => outcome == Some(
                    Ok::<crate::stream::Events, AdmissionError>(events),
                ),
                Admission::Rejected { error } => outcome == Some(
                    Err::<crate::stream::Events, AdmissionError>(error),
                ),
                _ => outcome is None,
            },
    {
        match self {
            Admission::Admitted { events } => Some(Ok(events)),
            Admission::Rejected { error } => Some(Err(error)),
            _ => None,
        }
    }
}

/// The response body for an admitted batch: its token.
pub fn ok_response(events: &crate::stream::Events) -> (body: OkResponse)
    ensures
        body@ == events@.token,
{
    OkResponse { token: events.token.clone() }
}

/// A refusal is final: whatever is reported afterwards, the admission stays
/// refused for the same reason and wants nothing.
pub proof fn lemma_refusal_is_final(error: Refusal, reports: Seq<ReportView>)
    ensures
        after_all(AdmissionView::Rejected { error }, reports) == (AdmissionView::Rejected { error }),
        wanted_by(AdmissionView::Rejected { error }) == Wanted::Nothing,
    decreases reports.len(),
{
    if reports.len() > 0 {
        lemma_refusal_is_final(error, reports.drop_first());
    }
}

/// Admission boundary. A batch without events or with more than 100 events is
/// refused as malformed when its admission begins, and no report changes
/// that: no directory is ever wanted for it.
pub proof fn lemma_malformed_batch_asks_nothing(batch: BatchView, reports: Seq<ReportView>)
    requires
        !batch_size_ok(batch.events.len()),
    ensures
        begun(batch) matches AdmissionView::Rejected { error: Refusal::Validation(_) },
        after_all(begun(batch), reports) == begun(batch),
        wanted_by(after_all(begun(batch), reports)) == Wanted::Nothing,
{
    lemma_refusal_is_final(begun(batch)->Rejected_error, reports);
}

/// A well-formed batch is not refused when its admission begins: its partner
/// is looked up first.
pub proof fn lemma_well_formed_batch_asks_partner(batch: BatchView)
    requires
        batch_size_ok(batch.events.len()),
    ensures
        begun(batch) == (AdmissionView::CheckingPartner { batch }),
        wanted_by(begun(batch)) == Wanted::Partner,
{
}

/// Disabled partner. A batch whose partner is disabled is refused as
/// forbidden, and whatever is reported afterwards, the authorization
/// directory is never wanted for it.
pub proof fn lemma_disabled_partner_is_forbidden(
    batch: BatchView,
    partner: PartnerView,
    reports: Seq<ReportView>,
)
    requires
        batch_size_ok(batch.events.len()),
        !partner.enabled,
    ensures
        after(begun(batch), ReportView::Partner(Ok(partner))) matches AdmissionView::Rejected {
            error: Refusal::Forbidden(_),
        },
        wanted_by(
            after_all(after(begun(batch), ReportView::Partner(Ok(partner))), reports),
        ) == Wanted::Nothing,
{
    let refused = after(begun(batch), ReportView::Partner(Ok(partner)));
    lemma_refusal_is_final(refused->Rejected_error, reports);
}

/// Unauthorized user. A batch of an enabled partner whose user has not
/// authorized that partner is refused as forbidden, and whatever is reported
/// afterwards, it never becomes an admitted batch.
pub proof fn lemma_unauthorized_user_is_forbidden(
    batch: BatchView,
    partner: PartnerView,
    reports: Seq<ReportView>,
)
    requires
        batch_size_ok(batch.events.len()),
        partner.enabled,
    ensures
        ({
            let checked = after(begun(batch), ReportView::Partner(Ok(partner)));
            let refused = after(checked, ReportView::Authorization(Ok(false)));
            &&& refused matches AdmissionView::Rejected { error: Refusal::Forbidden(_) }
            &&& after_all(refused, reports) == refused
            &&& !(after_all(refused, reports) is Admitted)
        }),
{
    let checked = after(begun(batch), ReportView::Partner(Ok(partner)));
    let refused = after(checked, ReportView::Authorization(Ok(false)));
    lemma_refusal_is_final(refused->Rejected_error, reports);
}

/// A failing directory refuses the batch as an upstream failure that carries
/// the failure's description.
pub proof fn lemma_directory_failure_is_upstream(
    batch: BatchView,
    partner: PartnerView,
    description: Seq<char>,
)
    requires
        batch_size_ok(batch.events.len()),
        partner.enabled,
    ensures
        after(begun(batch), ReportView::Partner(Err(description))) == (AdmissionView::Rejected {
            error: Refusal::Upstream(description),
        }),
        after(
            after(begun(batch), ReportView::Partner(Ok(partner))),
            ReportView::Authorization(Err(description)),
        ) == (AdmissionView::Rejected { error: Refusal::Upstream(description) }),
{
}

/// Hand-off. A well-formed batch of an enabled partner that its user has
/// authorized is admitted under the token it is given, with its events as
/// they were submitted.
pub proof fn lemma_admitted_batch_keeps_events(
    batch: BatchView,
    partner: PartnerView,
    token: Seq<char>,
)
    requires
        batch_size_ok(batch.events.len()),
        partner.enabled,
    ensures
        after_all(
            begun(batch),
            seq![
                ReportView::Partner(Ok(partner)),
                ReportView::Authorization(Ok(true)),
                ReportView::Token(token),
            ],
        ) == (AdmissionView::Admitted { events: AdmittedView { token, events: batch.events } }),
{
    reveal_with_fuel(after_all, 4);
}

} // verus!
