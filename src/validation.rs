//! The signing service: validates a request, signs the ticket's canonical
//! bytes and answers with a QR image or the signed ticket itself.

use vstd::prelude::*;
use crate::claims::{canonical_bytes, canonicalize, ClaimsPolicy};
use crate::messages::{SignedTicket, Ticket};
use crate::qr::{code_fits, code_image, code_image_ok, code_text, make_qr_code, QrError};
use crate::signer::{ed25519_public_key, ed25519_signature, Signer};

verus! {

/// What a signing request answers with.
#[derive(Clone, Copy, Debug, PartialEq, Eq, Structural)]
pub enum OutputMode {
    /// A PNG image of a QR code that holds the signed ticket.
    Image,
    /// The signed ticket itself.
    Package,
}

pub struct SignTicketRequest {
    pub ticket: Option<Ticket>,
}

pub enum SignTicketResponse {
    Qr(Vec<u8>),
    Ticket(SignedTicket),
}

pub struct GetVerificationKeyResponse {
    pub verification_keys: Vec<Vec<u8>>,
}

/// The status a failed request is answered with.
#[derive(Debug)]
pub enum Status {
    /// The request carries no ticket.
    InvalidArgument,
    /// The answer could not be produced. The cause is kept for the server's
    /// log; the message sent out does not disclose it.
    Internal(QrError),
}

impl Status {
    /// The message that goes out with the status.
    pub fn message(&self) -> (r: &'static str)
        ensures
            self is InvalidArgument ==> r@ == "Ticket is required"@,
            self is Internal ==> r@ == "Error creating QR code"@,
    {
        match self {
            Status::InvalidArgument => "Ticket is required",
            Status::Internal(_) => "Error creating QR code",
        }
    }
}

impl From<QrError> for Status {
    fn from(e: QrError) -> (r: Status)
        ensures
            r == Status::Internal(e),
    {
        Status::Internal(e)
    }
}

impl vstd::std_specs::convert::FromSpecImpl<QrError> for Status {
    open spec fn obeys_from_spec() -> bool {
        true
    }

    open spec fn from_spec(e: QrError) -> Status {
        Status::Internal(e)
    }
}

/// The answer to a signing request in image mode, given what the QR encoder
/// returned.
pub fn qr_response(code: Result<Vec<u8>, QrError>) -> (r: Result<SignTicketResponse, Status>)
    ensures
        code matches Err(e) ==> r == Err::<SignTicketResponse, Status>(Status::Internal(e)),
        code is Ok ==> (r matches Ok(SignTicketResponse::Qr(img)) && img@ == code->Ok_0@),
{
    match code {
        Ok(img) => Ok(SignTicketResponse::Qr(img)),
        Err(e) => Err(Status::from(e)),
    }
}

/// The signing authority: one key, fixed for its lifetime.
pub struct ValidationApp {
    signer: Signer,
    policy: ClaimsPolicy,
    output: OutputMode,
}

impl ValidationApp {
    pub closed spec fn secret_key(&self) -> Seq<u8> {
        self.signer.secret_key()
    }

    pub closed spec fn policy(&self) -> ClaimsPolicy {
        self.policy
    }

    pub closed spec fn output(&self) -> OutputMode {
        self.output
    }

    /// The public keys this authority publishes: the one that belongs to its
    /// secret key.
    pub open spec fn published_keys(&self) -> Seq<Seq<u8>> {
        seq![ed25519_public_key(self.secret_key())]
    }

    /// The bytes signed for a ticket.
    pub open spec fn payload_of(&self, t: Ticket) -> Seq<u8> {
        canonical_bytes(t, self.policy())
    }

    /// The signature made for a ticket.
    pub open spec fn signature_of(&self, t: Ticket) -> Seq<u8> {
        ed25519_signature(self.secret_key(), self.payload_of(t))
    }

    /// An authority that signs the selected claims of a ticket and answers
    /// with a QR image.
    pub fn new(secret_key: [u8; 32]) -> (r: ValidationApp)
        ensures
            r.secret_key() == secret_key@,
            r.policy() == ClaimsPolicy::SelectedClaims,
            r.output() == OutputMode::Image,
    {
        ValidationApp::with_modes(secret_key, ClaimsPolicy::SelectedClaims, OutputMode::Image)
    }

    pub fn with_modes(secret_key: [u8; 32], policy: ClaimsPolicy, output: OutputMode) -> (r:
        ValidationApp)
        ensures
            r.secret_key() == secret_key@,
            r.policy() == policy,
            r.output() == output,
    {
        ValidationApp { signer: Signer::from_secret(secret_key), policy, output }
    }

    pub fn sign_ticket(&self, request: SignTicketRequest) -> (r: Result<SignTicketResponse, Status>)
        ensures
            request.ticket is None <==> (r is Err && r->Err_0 is InvalidArgument),
            request.ticket matches Some(t) ==> {
                let payload = self.payload_of(t);
                let signature = self.signature_of(t);
                let text = code_text(payload, signature);
                &&& self.output() == OutputMode::Package ==> (r matches Ok(
                    SignTicketResponse::Ticket(p),
                ) && p.ticket@ == payload && p.signature@ == signature && p.signature@.len()
                    == 64)
                &&& self.output() == OutputMode::Image ==> {
                    &&& r is Ok <==> code_image_ok(text)
                    &&& r is Ok ==> (r->Ok_0 is Qr && r->Ok_0->Qr_0@ == code_image(text))
                    &&& r is Err ==> r->Err_0 is Internal
                    &&& (r is Err && r->Err_0 is Internal && r->Err_0->Internal_0 is QrCreationError)
                        <==> !code_fits(text)
                    &&& (r is Err && r->Err_0 is Internal && r->Err_0->Internal_0 is ImageWriteError)
                        <==> code_fits(text) && !code_image_ok(text)
                }
            },
    {
        let ticket = match request.ticket {
            Some(t) => t,
            None => {
                return Err(Status::InvalidArgument);
            },
        };
        let payload = canonicalize(ticket, self.policy);
        let signature = self.signer.sign(payload.as_slice());
        let signed_ticket = SignedTicket { ticket: payload, signature };
        match self.output {
            OutputMode::Package => Ok(SignTicketResponse::Ticket(signed_ticket)),
            OutputMode::Image => qr_response(make_qr_code(signed_ticket)),
        }
    }

    pub fn get_verification_keys(&self) -> (r: GetVerificationKeyResponse)
        ensures
            r.verification_keys@.len() == 1,
            r.verification_keys@[0]@ == self.published_keys()[0],
            r.verification_keys@[0]@.len() == 32,
    {
        let key = self.signer.public_key();
        let mut bytes: Vec<u8> = Vec::new();
        crate::wire::put_bytes(&mut bytes, &key);
        let keys = vec![bytes];
        GetVerificationKeyResponse { verification_keys: keys }
    }
}

/// Every call of `get_verification_keys` on one authority publishes the same
/// key bytes: they depend on its secret key alone, which never changes.
pub proof fn verification_keys_stable(app: &ValidationApp, other: &ValidationApp)
    requires
        app.secret_key() == other.secret_key(),
    ensures
        app.published_keys() == other.published_keys(),
        app.published_keys().len() == 1,
{
}

} // verus!
