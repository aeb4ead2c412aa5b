//! The payment processor: fee arithmetic, the intent request and its outcome.

use crate::decimal::{decimal_digits, to_decimal};
use crate::http::{bearer, bearer_text, PayError, PayErrorView};
use reqwest::header::{HeaderValue, InvalidHeaderValue};
use vstd::prelude::*;
use vstd::std_specs::convert::FromSpecImpl;
use vstd::string::*;
use vstd::utf8::encode_utf8;

verus! {

/// The value of an HTTP header.
#[verifier::external_type_specification]
#[verifier::external_body]
pub struct ExHeaderValue(reqwest::header::HeaderValue);

/// The refusal of a text as the value of an HTTP header.
#[verifier::external_type_specification]
#[verifier::external_body]
pub struct ExInvalidHeaderValue(reqwest::header::InvalidHeaderValue);

/// The bytes that a header value holds.
pub uninterp spec fn header_value_bytes(value: HeaderValue) -> Seq<u8>;

/// Whether a text can be the value of an HTTP header: it holds no ASCII
/// control character but the tab.
pub open spec fn is_header_text(text: Seq<char>) -> bool {
    forall|i: int|
        0 <= i < text.len() ==> {
            let c = #[trigger] text[i];
            c == '\t' || (' ' <= c && c != '\u{7f}')
        }
}

/// `HeaderValue::from_str` of the `http` crate, which `reqwest::header`
/// hands on. It accepts a text exactly when each of its bytes is a tab, or
/// is at least 32 and not 127; every byte of a character beyond ASCII is
/// above 127, so this is a condition on the characters. The value holds the
/// bytes of the text.
#[verifier::external_body]
fn header_value_from_str(text: &str) -> (res: Result<HeaderValue, InvalidHeaderValue>)
    ensures
        res is Ok <==> is_header_text(text@),
        res matches Ok(value) ==> header_value_bytes(value) == encode_utf8(text@),
{
    HeaderValue::from_str(text)
}

/// The bearer prefix is header text, so a bearer header is refused only for
/// its token.
pub proof fn lemma_bearer_is_header_text(token: Seq<char>)
    ensures
        is_header_text(bearer_text(token)) <==> is_header_text(token),
{
    reveal_strlit("Bearer ");
    let prefix = "Bearer "@;
    let text = bearer_text(token);
    if is_header_text(token) {
        assert forall|i: int| 0 <= i < text.len() implies {
            let c = #[trigger] text[i];
            c == '\t' || (' ' <= c && c != '\u{7f}')
        } by {
            if i >= prefix.len() {
                assert(text[i] == token[i - prefix.len()]);
            }
        }
    }
    if is_header_text(text) {
        assert forall|i: int| 0 <= i < token.len() implies {
            let c = #[trigger] token[i];
            c == '\t' || (' ' <= c && c != '\u{7f}')
        } by {
            assert(token[i] == text[i + prefix.len()]);
        }
    }
}

/// The payment processor's client: it holds the authorization header that
/// every request to the processor carries.
#[derive(Debug)]
pub struct Stripe {
    pub authorization: HeaderValue,
}

/// The processor's answer to a created payment intent.
#[derive(Debug)]
pub struct StripePaymentIntentResponse {
    pub amount_received: usize,
    pub client_secret: String,
}

/// What the payer's client is told of a created payment intent.
#[derive(Debug)]
pub struct PaymentIntentResponse {
    pub client_secret: String,
}

impl From<StripePaymentIntentResponse> for PaymentIntentResponse {
    /// Only the client secret is passed on; the amount received is dropped.
    fn from(intent: StripePaymentIntentResponse) -> (res: PaymentIntentResponse) {
        PaymentIntentResponse { client_secret: intent.client_secret }
    }
}

impl FromSpecImpl<StripePaymentIntentResponse> for PaymentIntentResponse {
    open spec fn obeys_from_spec() -> bool {
        true
    }

    open spec fn from_spec(intent: StripePaymentIntentResponse) -> PaymentIntentResponse {
        PaymentIntentResponse { client_secret: intent.client_secret }
    }
}

/// Fixed part of the card fee, in cents.
pub const FIXED_FEE_CENTS: usize = 30;

/// Percentage part of the card fee, in thousandths (2.9 %).
pub const PERCENTAGE_FEE_MILLIS: usize = 29;

/// The integer nearest to `n / d`, halves rounded up.
pub open spec fn round_div(n: nat, d: nat) -> nat
    recommends
        d > 0,
{
    (2 * n + d) / (2 * d)
}

/// What the payer is charged so that `amount` is left once the processor has
/// taken its percentage and its fixed fee:
/// `round((amount + 30) / (1 - 0.029))`.
pub open spec fn grossed_amount(amount: nat) -> nat {
    round_div(
        (amount + FIXED_FEE_CENTS as nat) * 1000,
        (1000 - PERCENTAGE_FEE_MILLIS) as nat,
    )
}

/// The card fee on `amount`: the grossed-up amount less the amount itself.
pub open spec fn card_fee(amount: nat) -> nat {
    (grossed_amount(amount) - amount) as nat
}

/// The grossed-up amount is the one integer within half a unit of
/// `(amount + 30) / 0.971`; it is never an exact tie, and it exceeds `amount`.
pub proof fn lemma_grossed_amount_is_nearest(amount: nat)
    ensures
        2 * (971 * grossed_amount(amount) - 1000 * (amount + 30)) < 971,
        2 * (1000 * (amount + 30) - 971 * grossed_amount(amount)) < 971,
        grossed_amount(amount) > amount,
        grossed_amount(amount) == amount + card_fee(amount),
{
    let n: int = 2000 * (amount as int) + 60971;
    let g: int = n / 1942;
    assert(grossed_amount(amount) == g);
    assert(n == 1942 * g + n % 1942);
    assert(0 <= n % 1942 < 1942);
    // n is odd and 1942 * g is even, so the remainder is odd: never zero.
    assert(n % 2 == 1);
    assert((1942 * g) % 2 == 0);
    assert((n % 1942) % 2 == 1);
}

/// Message of the failure on a payment mode that is neither card nor ACH.
pub const INVALID_METHOD_ERROR: &'static str = "invalid payment method";

/// Message of the failure when the processor refuses to create the intent.
pub const CREATE_INTENT_ERROR: &'static str = "failed to create payment intent";

/// The currency of every payment intent.
pub const CURRENCY: &'static str = "usd";

/// The processor's payment method for a payment mode: `card` for `card`,
/// `us_bank_account` for `ach`, none for anything else.
pub open spec fn payment_method(mode: Seq<char>) -> Option<Seq<char>> {
    if mode == "card"@ {
        Some("card"@)
    } else if mode == "ach"@ {
        Some("us_bank_account"@)
    } else {
        None
    }
}

/// The amount that the processor is asked to collect for `amount` due: with
/// the card fee on top for a card, the amount itself for any other mode.
pub open spec fn charged_amount(amount: nat, mode: Seq<char>) -> nat {
    if mode == "card"@ {
        amount + card_fee(amount)
    } else {
        amount
    }
}

/// The request that creates a payment intent.
#[derive(Debug)]
pub struct CreateIntent {
    pub amount: usize,
    pub currency: String,
    pub payment_method_type: String,
}

/// A [`CreateIntent`] with its texts as sequences of characters.
pub struct CreateIntentView {
    pub amount: usize,
    pub currency: Seq<char>,
    pub payment_method_type: Seq<char>,
}

impl View for CreateIntent {
    type V = CreateIntentView;

    open spec fn view(&self) -> CreateIntentView {
        CreateIntentView {
            amount: self.amount,
            currency: self.currency@,
            payment_method_type: self.payment_method_type@,
        }
    }
}

impl CreateIntentView {
    /// The fields of the form-encoded request, in the order in which they are
    /// sent.
    pub open spec fn form(self) -> Seq<(Seq<char>, Seq<char>)> {
        seq![
            ("amount"@, decimal_digits(self.amount as nat)),
            ("currency"@, self.currency),
            ("payment_method_types[0]"@, self.payment_method_type),
        ]
    }
}

/// A form field as a pair of sequences of characters.
pub open spec fn field_view(field: (String, String)) -> (Seq<char>, Seq<char>) {
    (field.0@, field.1@)
}

impl CreateIntent {
    /// The fields of the form-encoded request: the amount in decimal digits,
    /// the currency, and the one payment method type.
    pub fn form(&self) -> (fields: Vec<(String, String)>)
        ensures
            fields@.map_values(|f: (String, String)| field_view(f)) == self@.form(),
    {
        let mut fields: Vec<(String, String)> = Vec::new();
        fields.push((String::from_str("amount"), to_decimal(self.amount)));
        fields.push((String::from_str("currency"), self.currency.clone()));
        fields.push(
            (String::from_str("payment_method_types[0]"), self.payment_method_type.clone()),
        );
        assert(fields@.map_values(|f: (String, String)| field_view(f)) =~= self@.form());
        fields
    }
}

/// A card is charged the grossed-up amount, a bank transfer the amount due
/// itself.
pub proof fn lemma_charged_amount(amount: nat)
    ensures
        charged_amount(amount, "card"@) == grossed_amount(amount),
        charged_amount(amount, "card"@) == amount + card_fee(amount),
        charged_amount(amount, "ach"@) == amount,
{
    reveal_strlit("card");
    reveal_strlit("ach");
    lemma_grossed_amount_is_nearest(amount);
    assert("ach"@.len() != "card"@.len());
}

/// A mode that is neither `card` nor `ach` is refused as a bad request,
/// whatever the amount.
pub proof fn lemma_unknown_mode_is_bad_request(amount: usize, mode: Seq<char>)
    requires
        mode != "card"@,
        mode != "ach"@,
    ensures
        create_intent_for(amount, mode) == Err::<CreateIntentView, PayErrorView>(
            PayErrorView::BadRequest(INVALID_METHOD_ERROR@),
        ),
{
}

/// A payment-intent request or a failure, as contracts speak of them.
pub open spec fn create_intent_view(res: Result<CreateIntent, PayError>) -> Result<
    CreateIntentView,
    PayErrorView,
> {
    match res {
        Ok(request) => Ok(request@),
        Err(e) => Err(e@),
    }
}

/// The request for `amount` due in payment mode `mode`, or the refusal of the
/// mode.
pub open spec fn create_intent_for(amount: usize, mode: Seq<char>) -> Result<
    CreateIntentView,
    PayErrorView,
> {
    match payment_method(mode) {
        None => Err(PayErrorView::BadRequest(INVALID_METHOD_ERROR@)),
        Some(method) => Ok(
            CreateIntentView {
                amount: charged_amount(amount as nat, mode) as usize,
                currency: CURRENCY@,
                payment_method_type: method,
            },
        ),
    }
}

/// Whether an HTTP status reports success: 200 to 299.
pub open spec fn is_success(status: u16) -> bool {
    200 <= status < 300
}

impl Stripe {
    /// The client for the secret key `secret_key`, unless the key cannot
    /// stand in an HTTP header.
    pub fn try_new(secret_key: &str) -> (res: Result<Stripe, InvalidHeaderValue>)
        ensures
            res is Ok <==> is_header_text(secret_key@),
            res matches Ok(stripe) ==> header_value_bytes(stripe.authorization) == encode_utf8(
                bearer_text(secret_key@),
            ),
    {
        let text = bearer(secret_key);
        proof {
            lemma_bearer_is_header_text(secret_key@);
        }
        match header_value_from_str(text.as_str()) {
            Ok(authorization) => Ok(Stripe { authorization }),
            Err(e) => Err(e),
        }
    }

    /// The client for the secret key `secret_key`.
    pub fn new(secret_key: &str) -> (stripe: Stripe)
        requires
            is_header_text(secret_key@),
        ensures
            header_value_bytes(stripe.authorization) == encode_utf8(bearer_text(secret_key@)),
    {
        match Stripe::try_new(secret_key) {
            Ok(stripe) => stripe,
            Err(_) => {
                proof {
                    assert(false);
                }
                unreached()
            },
        }
    }

    /// Whether the amount to charge for `amount` due in mode `mode` fits the
    /// machine word, as [`Stripe::create_payment_intent`] requires.
    pub fn can_charge(amount: usize, mode: &String) -> (fits: bool)
        ensures
            fits == (charged_amount(amount as nat, mode@) <= usize::MAX),
    {
        if *mode == String::from_str("card") {
            amount <= usize::MAX - get_fee(amount)
        } else {
            true
        }
    }

    /// The request that creates a payment intent for `amount` due, paid in
    /// mode `mode`.
    ///
    /// A card payment is charged the amount with the card fee on top, a bank
    /// transfer the amount itself. Any other mode is a bad request.
    pub fn create_payment_intent(&self, amount: usize, mode: String) -> (res: Result<
        CreateIntent,
        PayError,
    >)
        requires
            charged_amount(amount as nat, mode@) <= usize::MAX,
        ensures
            create_intent_view(res) == create_intent_for(amount, mode@),
    {
        let mut amount = amount;
        if mode == String::from_str("card") {
            amount += get_fee(amount);
        }
        let payment_method = if mode == String::from_str("card") {
            String::from_str("card")
        } else if mode == String::from_str("ach") {
            String::from_str("us_bank_account")
        } else {
            return Err(PayError::BadRequest(String::from_str(INVALID_METHOD_ERROR)));
        };
        Ok(
            CreateIntent {
                amount,
                currency: String::from_str(CURRENCY),
                payment_method_type: payment_method,
            },
        )
    }

    /// What becomes of the processor's answer with HTTP status `status`, of
    /// which `body` is what could be read.
    ///
    /// Unless the status reports success the intent was not created, whatever
    /// the body holds. On success the body, or the failure to read it, is
    /// handed on.
    pub fn payment_intent_created(
        status: u16,
        body: Result<StripePaymentIntentResponse, PayError>,
    ) -> (res: Result<StripePaymentIntentResponse, PayError>)
        ensures
            is_success(status) ==> res == body,
            !is_success(status) ==> (res matches Err(e) && e@ == PayErrorView::InternalError(
                CREATE_INTENT_ERROR@,
            )),
    {
        if is_success_status(status) {
            body
        } else {
            Err(PayError::InternalError(String::from_str(CREATE_INTENT_ERROR)))
        }
    }
}

/// Whether an HTTP status reports success.
pub fn is_success_status(status: u16) -> (success: bool)
    ensures
        success == is_success(status),
{
    200 <= status && status < 300
}

/// The card fee on `amount`, in cents: what is added to the amount so that
/// the amount is left once the processor has taken 2.9 % and 30 cents.
pub fn get_fee(amount: usize) -> (fee: usize)
    ensures
        fee == card_fee(amount as nat),
{
    let numerator: u128 = (amount as u128 + FIXED_FEE_CENTS as u128) * 1000;
    let denominator: u128 = 1000 - PERCENTAGE_FEE_MILLIS as u128;
    let grossed: u128 = (2 * numerator + denominator) / (2 * denominator);
    proof {
        lemma_grossed_amount_is_nearest(amount as nat);
        assert(grossed == grossed_amount(amount as nat));
        assert(2 * numerator + denominator == 1942 * grossed + (2 * numerator + denominator) % 1942);
    }
    (grossed - amount as u128) as usize
}

} // verus!
