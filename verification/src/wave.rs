//! The invoicing provider: its responses, and how an invoice and an amount
//! due are read from them.

use crate::decimal::{
    all_digits, decimal_digits, decimal_value, digit_value, is_digit, lemma_decimal_digits_value,
    lemma_decimal_value_grows, lemma_decimal_value_push,
};
use crate::http::{PayError, PayErrorView};
use vstd::prelude::*;
use vstd::std_specs::convert::TryFromSpecImpl;
use vstd::string::*;

verus! {

/// Message of the failure to read an amount due from its text.
pub const AMOUNT_ERROR: &'static str = "failed to deserialize invoice amount";

/// The grouping comma and the decimal point.
pub open spec fn is_punctuation(c: char) -> bool {
    c == '.' || c == ','
}

/// `text` without its grouping commas and decimal points.
pub open spec fn strip_punctuation(text: Seq<char>) -> Seq<char> {
    text.filter(|c: char| !is_punctuation(c))
}

/// The amount in minor units that a decimal text such as `1,234.56` stands
/// for: its digits read as one integer, the punctuation left out. There is
/// none where no digit is left, where anything but digits is left, or where
/// the number does not fit the machine word.
pub open spec fn parse_amount(text: Seq<char>) -> Option<usize> {
    let digits = strip_punctuation(text);
    if digits.len() > 0 && all_digits(digits) && decimal_value(digits) <= usize::MAX {
        Some(decimal_value(digits) as usize)
    } else {
        None
    }
}

/// Stripping one more character: a punctuation mark is left out, any other
/// character is kept at the end.
proof fn lemma_strip_step(text: Seq<char>, i: int)
    requires
        0 <= i < text.len(),
    ensures
        strip_punctuation(text.subrange(0, i + 1)) == if is_punctuation(text[i]) {
            strip_punctuation(text.subrange(0, i))
        } else {
            strip_punctuation(text.subrange(0, i)).push(text[i])
        },
{
    reveal(Seq::filter);
    assert(text.subrange(0, i + 1).drop_last() =~= text.subrange(0, i));
}

/// What is stripped from a text begins with what is stripped from any of its
/// prefixes.
proof fn lemma_strip_split(text: Seq<char>, i: int)
    requires
        0 <= i <= text.len(),
    ensures
        strip_punctuation(text) == strip_punctuation(text.subrange(0, i)) + strip_punctuation(
            text.subrange(i, text.len() as int),
        ),
{
    assert(text =~= text.subrange(0, i) + text.subrange(i, text.len() as int));
    Seq::filter_distributes_over_add(
        text.subrange(0, i),
        text.subrange(i, text.len() as int),
        |c: char| !is_punctuation(c),
    );
}

/// A character that is neither punctuation nor a digit leaves no amount.
pub proof fn lemma_stray_character(text: Seq<char>, i: int)
    requires
        0 <= i < text.len(),
        !is_punctuation(text[i]),
        !is_digit(text[i]),
    ensures
        parse_amount(text) is None,
{
    let keep = |c: char| !is_punctuation(c);
    text.lemma_filter_contains(keep, i);
    let digits = strip_punctuation(text);
    let j = choose|j: int| 0 <= j < digits.len() && digits[j] == text[i];
    assert(!is_digit(digits[j]));
}

/// The amount due on an invoice, in minor currency units.
#[derive(Debug)]
pub struct AmountDue {
    pub value: usize,
}

impl TryFrom<String> for AmountDue {
    type Error = PayError;

    /// Reads the amount from the provider's decimal text.
    fn try_from(value: String) -> (res: Result<AmountDue, PayError>)
        ensures
            match parse_amount(value@) {
                Some(amount) => res matches Ok(due) && due.value == amount,
                None => res matches Err(e) && e@ == PayErrorView::DeserializeError(AMOUNT_ERROR@),
            },
    {
        let text = value.as_str();
        if !text.is_ascii() {
            proof {
                let i = choose|i: int|
                    0 <= i < text@.len() && !('\0' <= #[trigger] text@[i] <= '\u{7f}');
                lemma_stray_character(text@, i);
            }
            return Err(PayError::DeserializeError(String::from_str(AMOUNT_ERROR)));
        }
        proof {
            is_ascii_spec_bytes(text);
            assert(text.spec_bytes().len() == text@.len());
        }
        let bytes = text.as_bytes();
        let n = bytes.len();
        let mut amount: usize = 0;
        let mut seen = false;
        let mut i: usize = 0;
        while i < n
            invariant
                i <= n == text@.len(),
                text.is_ascii(),
                text@ == value@,
                bytes@ == text.spec_bytes(),
                all_digits(strip_punctuation(text@.subrange(0, i as int))),
                decimal_value(strip_punctuation(text@.subrange(0, i as int))) == amount,
                seen == (strip_punctuation(text@.subrange(0, i as int)).len() > 0),
            decreases n - i,
        {
            let b = bytes[i];
            let ghost c = text@[i as int];
            proof {
                lemma_strip_step(text@, i as int);
                is_ascii_spec_bytes(text);
                assert('\0' <= c <= '\u{7f}');
                assert(c as u8 == b);
                assert(is_punctuation(c) <==> b == 46 || b == 44);
                assert(is_digit(c) <==> 48 <= b <= 57);
            }
            if b == 46 || b == 44 {
            } else if 48 <= b && b <= 57 {
                let digit = (b - 48) as usize;
                proof {
                    lemma_decimal_value_push(strip_punctuation(text@.subrange(0, i as int)), c);
                    assert(digit_value(c) == digit);
                }
                if amount > (usize::MAX - digit) / 10 {
                    proof {
                        lemma_strip_split(text@, i + 1);
                        lemma_decimal_value_grows(
                            strip_punctuation(text@.subrange(0, i + 1)),
                            strip_punctuation(text@.subrange(i + 1, text@.len() as int)),
                        );
                        assert(10 * amount + digit > usize::MAX);
                    }
                    return Err(PayError::DeserializeError(String::from_str(AMOUNT_ERROR)));
                }
                amount = amount * 10 + digit;
                seen = true;
            } else {
                proof {
                    lemma_stray_character(text@, i as int);
                }
                return Err(PayError::DeserializeError(String::from_str(AMOUNT_ERROR)));
            }
            i += 1;
        }
        assert(text@.subrange(0, i as int) =~= text@);
        if seen {
            Ok(AmountDue { value: amount })
        } else {
            Err(PayError::DeserializeError(String::from_str(AMOUNT_ERROR)))
        }
    }
}

impl TryFromSpecImpl<String> for AmountDue {
    /// The failure carries a message, which no spec function can build; what
    /// `try_from` returns is stated there.
    open spec fn obeys_try_from_spec() -> bool {
        false
    }

    open spec fn try_from_spec(value: String) -> Result<AmountDue, PayError> {
        match parse_amount(value@) {
            Some(amount) => Ok(AmountDue { value: amount }),
            None => Err(choose|e: PayError| e@ is DeserializeError),
        }
    }
}

/// The query that asks for the amount due on one invoice, by the invoice's id.
#[derive(Debug)]
pub struct GetInvoice {
    pub business_id: String,
    pub invoice_id: String,
}

impl GetInvoice {
    /// The query for invoice `invoice_id` of business `business_id`.
    pub fn build_query(business_id: &String, invoice_id: String) -> (query: GetInvoice)
        ensures
            query.business_id@ == business_id@,
            query.invoice_id@ == invoice_id@,
    {
        GetInvoice { business_id: business_id.clone(), invoice_id }
    }
}

/// The invoice in the answer to [`GetInvoice`], with its amount due as the
/// provider writes it.
#[derive(Debug)]
pub struct GetInvoiceInvoice {
    pub amount_due: String,
}

#[derive(Debug)]
pub struct GetInvoiceBusiness {
    pub invoice: Option<GetInvoiceInvoice>,
}

#[derive(Debug)]
pub struct GetInvoiceData {
    pub business: Option<GetInvoiceBusiness>,
}

/// The provider's answer to [`GetInvoice`]. Every layer may be missing.
#[derive(Debug)]
pub struct GetInvoiceResponse {
    pub data: Option<GetInvoiceData>,
}

/// Message of the failure when the answer to [`GetInvoice`] has no data.
pub const AMOUNT_DATA_ERROR: &'static str = "failed to deserialize amount_due request data";

/// Message of the failure when the answer to [`GetInvoice`] has no business.
pub const AMOUNT_BUSINESS_ERROR: &'static str = "failed to deserialize business data";

/// Message of the failure when the answer to [`GetInvoice`] has no invoice.
pub const AMOUNT_INVOICE_ERROR: &'static str = "failed to deserialize invoice data";

impl GetInvoiceResponse {
    /// The text of the amount due, or the message that names the first
    /// missing layer.
    pub open spec fn amount_text(self) -> Result<Seq<char>, Seq<char>> {
        match self.data {
            None => Err(AMOUNT_DATA_ERROR@),
            Some(data) => match data.business {
                None => Err(AMOUNT_BUSINESS_ERROR@),
                Some(business) => match business.invoice {
                    None => Err(AMOUNT_INVOICE_ERROR@),
                    Some(invoice) => Ok(invoice.amount_due@),
                },
            },
        }
    }

    /// The amount due that the answer holds, or the failure to read it.
    pub open spec fn amount_due(self) -> Result<usize, PayErrorView> {
        match self.amount_text() {
            Err(message) => Err(PayErrorView::DeserializeError(message)),
            Ok(text) => match parse_amount(text) {
                None => Err(PayErrorView::DeserializeError(AMOUNT_ERROR@)),
                Some(amount) => Ok(amount),
            },
        }
    }
}

/// An amount due or a failure, as contracts speak of them.
pub open spec fn amount_result_view(res: Result<AmountDue, PayError>) -> Result<
    usize,
    PayErrorView,
> {
    match res {
        Ok(due) => Ok(due.value),
        Err(e) => Err(e@),
    }
}

impl AmountDue {
    /// Reads the amount due from the provider's answer to [`GetInvoice`].
    ///
    /// A missing layer (data, business, invoice) is a deserialization failure
    /// with a message of its own, and so is an amount that cannot be read.
    pub fn get(response: GetInvoiceResponse) -> (res: Result<AmountDue, PayError>)
        ensures
            amount_result_view(res) == response.amount_due(),
    {
        let data = match response.data {
            Some(data) => data,
            None => {
                return Err(PayError::DeserializeError(String::from_str(AMOUNT_DATA_ERROR)));
            },
        };
        let business = match data.business {
            Some(business) => business,
            None => {
                return Err(PayError::DeserializeError(String::from_str(AMOUNT_BUSINESS_ERROR)));
            },
        };
        let invoice = match business.invoice {
            Some(invoice) => invoice,
            None => {
                return Err(PayError::DeserializeError(String::from_str(AMOUNT_INVOICE_ERROR)));
            },
        };
        AmountDue::try_from(invoice.amount_due)
    }
}

/// The customer to whom an invoice is addressed.
#[derive(Debug)]
pub struct Customer {
    pub name: String,
}

/// An invoice as the gateway hands it to the payer.
#[derive(Debug)]
pub struct Invoice {
    pub id: String,
    pub pdf_url: String,
    pub invoice_number: String,
    pub customer: Customer,
    pub amount_due: AmountDue,
}

/// An [`Invoice`] with its texts as sequences of characters.
pub struct InvoiceView {
    pub id: Seq<char>,
    pub pdf_url: Seq<char>,
    pub invoice_number: Seq<char>,
    pub customer_name: Seq<char>,
    pub amount_due: usize,
}

impl View for Invoice {
    type V = InvoiceView;

    open spec fn view(&self) -> InvoiceView {
        InvoiceView {
            id: self.id@,
            pdf_url: self.pdf_url@,
            invoice_number: self.invoice_number@,
            customer_name: self.customer.name@,
            amount_due: self.amount_due.value,
        }
    }
}

/// The query that looks an invoice up by its number.
#[derive(Debug)]
pub struct FindInvoice {
    pub business_id: String,
    pub invoice_number: String,
}

impl FindInvoice {
    /// The query for invoice number `invoice_number` of business
    /// `business_id`.
    pub fn build_query(business_id: &String, invoice_number: &String) -> (query: FindInvoice)
        ensures
            query.business_id@ == business_id@,
            query.invoice_number@ == invoice_number@,
    {
        FindInvoice { business_id: business_id.clone(), invoice_number: invoice_number.clone() }
    }
}

/// The amount due of an invoice in the answer to [`FindInvoice`], as the
/// provider writes it.
#[derive(Debug)]
pub struct FindInvoiceAmountDue {
    pub value: String,
}

/// An invoice in the answer to [`FindInvoice`].
#[derive(Debug)]
pub struct FindInvoiceNode {
    pub id: String,
    pub pdf_url: String,
    pub invoice_number: String,
    pub customer: Customer,
    pub amount_due: FindInvoiceAmountDue,
}

#[derive(Debug)]
pub struct FindInvoiceEdge {
    pub node: FindInvoiceNode,
}

#[derive(Debug)]
pub struct FindInvoiceInvoices {
    pub edges: Vec<FindInvoiceEdge>,
}

#[derive(Debug)]
pub struct FindInvoiceBusiness {
    pub invoices: Option<FindInvoiceInvoices>,
}

#[derive(Debug)]
pub struct FindInvoiceData {
    pub business: Option<FindInvoiceBusiness>,
}

/// The provider's answer to [`FindInvoice`]. Every layer may be missing.
#[derive(Debug)]
pub struct FindInvoiceResponse {
    pub data: Option<FindInvoiceData>,
}

/// Message of the failure when the answer to [`FindInvoice`] has no data.
pub const INVOICE_RESPONSE_ERROR: &'static str = "failed to deserialize invoice response";

/// Message of the failure when the answer to [`FindInvoice`] has no business.
pub const INVOICE_BUSINESS_ERROR: &'static str = "failed to deserialize invoice business";

/// Message of the failure when the answer to [`FindInvoice`] has no list of
/// invoices.
pub const INVOICE_ARRAY_ERROR: &'static str = "failed to deserialize invoice array";

/// Message of the failure when the list of invoices is empty.
pub const INVOICE_ITEM_ERROR: &'static str = "failed to deserialize invoice itself";

/// The message of the failure to find invoice `number`.
pub open spec fn not_found_message(number: Seq<char>) -> Seq<char> {
    "invoice "@ + number + " not found"@
}

impl FindInvoiceResponse {
    /// The first invoice of the answer, or the message that names the first
    /// missing layer.
    pub open spec fn first_node(self) -> Result<FindInvoiceNode, Seq<char>> {
        match self.data {
            None => Err(INVOICE_RESPONSE_ERROR@),
            Some(data) => match data.business {
                None => Err(INVOICE_BUSINESS_ERROR@),
                Some(business) => match business.invoices {
                    None => Err(INVOICE_ARRAY_ERROR@),
                    Some(invoices) => if invoices.edges@.len() == 0 {
                        Err(INVOICE_ITEM_ERROR@)
                    } else {
                        Ok(invoices.edges@[0].node)
                    },
                },
            },
        }
    }

    /// The invoice that the answer holds, or the failure to read it.
    pub open spec fn invoice(self) -> Result<InvoiceView, PayErrorView> {
        match self.first_node() {
            Err(message) => Err(PayErrorView::DeserializeError(message)),
            Ok(node) => match parse_amount(node.amount_due.value@) {
                None => Err(PayErrorView::DeserializeError(AMOUNT_ERROR@)),
                Some(amount) => Ok(
                    InvoiceView {
                        id: node.id@,
                        pdf_url: node.pdf_url@,
                        invoice_number: node.invoice_number@,
                        customer_name: node.customer.name@,
                        amount_due: amount,
                    },
                ),
            },
        }
    }

    /// The invoice with number `number` that the answer holds. An invoice
    /// with another number counts as not found.
    pub open spec fn invoice_numbered(self, number: Seq<char>) -> Result<
        InvoiceView,
        PayErrorView,
    > {
        match self.invoice() {
            Err(e) => Err(e),
            Ok(invoice) => if invoice.invoice_number == number {
                Ok(invoice)
            } else {
                Err(PayErrorView::NotFound(not_found_message(number)))
            },
        }
    }
}

/// An answer whose first invoice bears another number than the one asked for
/// counts as not found, although the invoice itself could be read.
pub proof fn lemma_other_number_is_not_found(response: FindInvoiceResponse, number: Seq<char>)
    requires
        response.invoice() matches Ok(invoice) && invoice.invoice_number != number,
    ensures
        response.invoice_numbered(number) == Err::<InvoiceView, PayErrorView>(
            PayErrorView::NotFound(not_found_message(number)),
        ),
{
}

/// An invoice that is found bears the number asked for, and is the first
/// invoice of the answer.
pub proof fn lemma_found_invoice_has_number(response: FindInvoiceResponse, number: Seq<char>)
    requires
        response.invoice_numbered(number) is Ok,
    ensures
        response.invoice_numbered(number) == response.invoice(),
        response.invoice_numbered(number)->Ok_0.invoice_number == number,
{
}

/// Grouping commas and decimal points do not count: a text stands for the
/// same amount as the text without them.
pub proof fn lemma_parse_amount_ignores_punctuation(text: Seq<char>)
    ensures
        parse_amount(text) == parse_amount(strip_punctuation(text)),
{
    let keep = |c: char| !is_punctuation(c);
    let stripped = strip_punctuation(text);
    assert(stripped.filter(keep) =~= stripped) by {
        lemma_filter_keeps_all(stripped, text);
    }
}

/// Stripping a text that holds no punctuation leaves it as it is.
proof fn lemma_filter_keeps_all(stripped: Seq<char>, text: Seq<char>)
    requires
        stripped == strip_punctuation(text),
    ensures
        strip_punctuation(stripped) == stripped,
{
    let keep = |c: char| !is_punctuation(c);
    assert forall|i: int| 0 <= i < stripped.len() implies !is_punctuation(
        #[trigger] stripped[i],
    ) by {
        text.lemma_filter_pred(keep, i);
    }
    lemma_strip_unpunctuated(stripped);
}

/// A text without punctuation is what is left of itself.
pub proof fn lemma_strip_unpunctuated(text: Seq<char>)
    requires
        forall|i: int| 0 <= i < text.len() ==> !is_punctuation(#[trigger] text[i]),
    ensures
        strip_punctuation(text) == text,
    decreases text.len(),
{
    reveal(Seq::filter);
    if text.len() > 0 {
        lemma_strip_unpunctuated(text.drop_last());
        assert(text.drop_last().push(text.last()) =~= text);
    }
}

/// A number written in decimal digits is read back as that amount.
pub proof fn lemma_parse_amount_of_decimal_digits(amount: usize)
    ensures
        parse_amount(decimal_digits(amount as nat)) == Some(amount),
{
    let digits = decimal_digits(amount as nat);
    lemma_decimal_digits_value(amount as nat);
    assert forall|i: int| 0 <= i < digits.len() implies !is_punctuation(#[trigger] digits[i]) by {
        assert(is_digit(digits[i]));
    }
    lemma_strip_unpunctuated(digits);
}

/// An invoice or a failure, as contracts speak of them.
pub open spec fn invoice_result_view(res: Result<Invoice, PayError>) -> Result<
    InvoiceView,
    PayErrorView,
> {
    match res {
        Ok(invoice) => Ok(invoice@),
        Err(e) => Err(e@),
    }
}

impl TryFrom<FindInvoiceResponse> for Invoice {
    type Error = PayError;

    /// Reads the first invoice of the provider's answer to [`FindInvoice`].
    ///
    /// A missing layer (data, business, list of invoices, first invoice) is a
    /// deserialization failure with a message of its own, and so is an amount
    /// due that cannot be read.
    fn try_from(value: FindInvoiceResponse) -> (res: Result<Invoice, PayError>)
        ensures
            invoice_result_view(res) == value.invoice(),
    {
        let data = match value.data {
            Some(data) => data,
            None => {
                return Err(PayError::DeserializeError(String::from_str(INVOICE_RESPONSE_ERROR)));
            },
        };
        let business = match data.business {
            Some(business) => business,
            None => {
                return Err(PayError::DeserializeError(String::from_str(INVOICE_BUSINESS_ERROR)));
            },
        };
        let invoices = match business.invoices {
            Some(invoices) => invoices,
            None => {
                return Err(PayError::DeserializeError(String::from_str(INVOICE_ARRAY_ERROR)));
            },
        };
        let mut edges = invoices.edges;
        if edges.len() == 0 {
            return Err(PayError::DeserializeError(String::from_str(INVOICE_ITEM_ERROR)));
        }
        let node = edges.remove(0).node;
        let amount_due = match AmountDue::try_from(node.amount_due.value) {
            Ok(amount_due) => amount_due,
            Err(e) => {
                return Err(e);
            },
        };
        Ok(
            Invoice {
                id: node.id,
                pdf_url: node.pdf_url,
                invoice_number: node.invoice_number,
                customer: Customer { name: node.customer.name },
                amount_due,
            },
        )
    }
}

impl TryFromSpecImpl<FindInvoiceResponse> for Invoice {
    /// A failure carries a message, which no spec function can build; what
    /// `try_from` returns is stated there.
    open spec fn obeys_try_from_spec() -> bool {
        false
    }

    open spec fn try_from_spec(value: FindInvoiceResponse) -> Result<Invoice, PayError> {
        choose|res: Result<Invoice, PayError>| invoice_result_view(res) == value.invoice()
    }
}

impl Invoice {
    /// The invoice with number `number` in the provider's answer to the
    /// query for that number.
    ///
    /// The provider may answer with an invoice of a similar number: unless the
    /// first invoice of the answer has exactly the number asked for, the
    /// invoice is not found.
    pub fn find(number: String, response: FindInvoiceResponse) -> (res: Result<Invoice, PayError>)
        ensures
            invoice_result_view(res) == response.invoice_numbered(number@),
    {
        let invoice = match Invoice::try_from(response) {
            Ok(invoice) => invoice,
            Err(e) => {
                return Err(e);
            },
        };
        if invoice.invoice_number != number {
            let message = String::from_str("invoice ").concat(number.as_str()).concat(" not found");
            return Err(PayError::NotFound(message));
        }
        Ok(invoice)
    }
}

} // verus!
