use pay_worker::http::PayError;
use pay_worker::wave::{
    AmountDue, Customer, FindInvoice, FindInvoiceAmountDue, FindInvoiceBusiness, FindInvoiceData,
    FindInvoiceEdge, FindInvoiceInvoices, FindInvoiceNode, FindInvoiceResponse, GetInvoice,
    GetInvoiceBusiness, GetInvoiceData, GetInvoiceInvoice, GetInvoiceResponse, Invoice,
};

fn node(number: &str, amount: &str) -> FindInvoiceNode {
    FindInvoiceNode {
        id: format!("id-{}", number),
        pdf_url: format!("https://example.com/{}.pdf", number),
        invoice_number: number.to_string(),
        customer: Customer { name: "Ada Lovelace".to_string() },
        amount_due: FindInvoiceAmountDue { value: amount.to_string() },
    }
}

fn found(nodes: Vec<FindInvoiceNode>) -> FindInvoiceResponse {
    let edges = nodes.into_iter().map(|node| FindInvoiceEdge { node }).collect();
    FindInvoiceResponse {
        data: Some(FindInvoiceData {
            business: Some(FindInvoiceBusiness { invoices: Some(FindInvoiceInvoices { edges }) }),
        }),
    }
}

fn amount_answer(amount: &str) -> GetInvoiceResponse {
    GetInvoiceResponse {
        data: Some(GetInvoiceData {
            business: Some(GetInvoiceBusiness {
                invoice: Some(GetInvoiceInvoice { amount_due: amount.to_string() }),
            }),
        }),
    }
}

fn deserialize_error<T: std::fmt::Debug>(res: Result<T, PayError>) -> String {
    match res {
        Err(PayError::DeserializeError(message)) => message,
        other => panic!("unexpected {:?}", other),
    }
}

fn amount(text: &str) -> Result<usize, PayError> {
    AmountDue::try_from(text.to_string()).map(|due| due.value)
}

#[test]
fn amount_with_grouping_and_decimals() {
    assert_eq!(amount("1,234.56").unwrap(), 123456);
}

#[test]
fn amount_of_one_hundred() {
    assert_eq!(amount("100.00").unwrap(), 10000);
}

#[test]
fn amount_without_punctuation() {
    assert_eq!(amount("0").unwrap(), 0);
    assert_eq!(amount("7").unwrap(), 7);
    assert_eq!(amount("000123").unwrap(), 123);
}

#[test]
fn amount_with_punctuation_anywhere() {
    assert_eq!(amount(".5").unwrap(), 5);
    assert_eq!(amount("5.").unwrap(), 5);
    assert_eq!(amount("1.2.3,4").unwrap(), 1234);
    assert_eq!(amount(",,1..").unwrap(), 1);
    assert_eq!(amount("1,000,000.00").unwrap(), 100000000);
}

#[test]
fn amount_of_the_largest_number() {
    assert_eq!(amount("18446744073709551615").unwrap(), usize::MAX);
    assert_eq!(amount("184,467,440,737,095,516.15").unwrap(), usize::MAX);
}

#[test]
fn amount_that_does_not_fit_fails() {
    for text in ["18446744073709551616", "18446744073709551620", "99999999999999999999", "1,000,000,000,000,000,000,000.00"] {
        assert_eq!(deserialize_error(amount(text)), "failed to deserialize invoice amount");
    }
}

#[test]
fn amount_with_a_stray_character_fails() {
    for text in ["abc", "12a", "a12", "1 2", " 12", "12 ", "-5", "+5", "$1.00", "1e3", "1_000", "١٢٣", "12€"] {
        assert_eq!(deserialize_error(amount(text)), "failed to deserialize invoice amount");
    }
}

#[test]
fn amount_without_a_digit_fails() {
    for text in ["", ".", ",", ".,.,"] {
        assert_eq!(deserialize_error(amount(text)), "failed to deserialize invoice amount");
    }
}

#[test]
fn well_formed_invoice_is_found() {
    let invoice = Invoice::find("INV-1".to_string(), found(vec![node("INV-1", "100.00")])).unwrap();
    assert_eq!(invoice.amount_due.value, 10000);
    assert_eq!(invoice.invoice_number, "INV-1");
    assert_eq!(invoice.id, "id-INV-1");
    assert_eq!(invoice.pdf_url, "https://example.com/INV-1.pdf");
    assert_eq!(invoice.customer.name, "Ada Lovelace");
}

#[test]
fn invoice_is_read_from_the_answer() {
    let invoice = Invoice::try_from(found(vec![node("INV-7", "1,234.56")])).unwrap();
    assert_eq!(invoice.amount_due.value, 123456);
    assert_eq!(invoice.invoice_number, "INV-7");
    assert_eq!(invoice.id, "id-INV-7");
    assert_eq!(invoice.pdf_url, "https://example.com/INV-7.pdf");
    assert_eq!(invoice.customer.name, "Ada Lovelace");
}

#[test]
fn first_invoice_of_several_is_taken() {
    let answer = found(vec![node("INV-1", "1.00"), node("INV-2", "2.00")]);
    let invoice = Invoice::find("INV-1".to_string(), answer).unwrap();
    assert_eq!(invoice.invoice_number, "INV-1");
    assert_eq!(invoice.amount_due.value, 100);
}

#[test]
fn later_invoice_with_the_number_is_not_found() {
    let answer = found(vec![node("INV-1", "1.00"), node("INV-2", "2.00")]);
    match Invoice::find("INV-2".to_string(), answer) {
        Err(PayError::NotFound(message)) => assert_eq!(message, "invoice INV-2 not found"),
        other => panic!("unexpected {:?}", other),
    }
}

#[test]
fn invoice_with_another_number_is_not_found() {
    for asked in ["INV-1", "INV-100", "inv-10", "", "INV-10 "] {
        match Invoice::find(asked.to_string(), found(vec![node("INV-10", "100.00")])) {
            Err(PayError::NotFound(message)) => {
                assert_eq!(message, format!("invoice {} not found", asked))
            }
            other => panic!("unexpected {:?}", other),
        }
    }
}

#[test]
fn missing_data_names_the_response() {
    let answer = FindInvoiceResponse { data: None };
    assert_eq!(
        deserialize_error(Invoice::find("INV-1".to_string(), answer)),
        "failed to deserialize invoice response"
    );
}

#[test]
fn missing_business_names_the_business() {
    let answer = FindInvoiceResponse { data: Some(FindInvoiceData { business: None }) };
    assert_eq!(
        deserialize_error(Invoice::find("INV-1".to_string(), answer)),
        "failed to deserialize invoice business"
    );
}

#[test]
fn missing_invoices_names_the_array() {
    let answer = FindInvoiceResponse {
        data: Some(FindInvoiceData { business: Some(FindInvoiceBusiness { invoices: None }) }),
    };
    assert_eq!(
        deserialize_error(Invoice::find("INV-1".to_string(), answer)),
        "failed to deserialize invoice array"
    );
}

#[test]
fn empty_invoices_names_the_invoice() {
    assert_eq!(
        deserialize_error(Invoice::find("INV-1".to_string(), found(vec![]))),
        "failed to deserialize invoice itself"
    );
    assert_eq!(
        deserialize_error(Invoice::try_from(found(vec![]))),
        "failed to deserialize invoice itself"
    );
}

#[test]
fn unreadable_amount_of_an_invoice_fails() {
    assert_eq!(
        deserialize_error(Invoice::find("INV-1".to_string(), found(vec![node("INV-1", "n/a")]))),
        "failed to deserialize invoice amount"
    );
}

#[test]
fn unreadable_amount_comes_before_the_number() {
    assert_eq!(
        deserialize_error(Invoice::find("INV-2".to_string(), found(vec![node("INV-1", "n/a")]))),
        "failed to deserialize invoice amount"
    );
}

#[test]
fn amount_due_is_read_from_the_answer() {
    assert_eq!(AmountDue::get(amount_answer("100.00")).unwrap().value, 10000);
    assert_eq!(AmountDue::get(amount_answer("1,234.56")).unwrap().value, 123456);
}

#[test]
fn amount_due_without_data() {
    assert_eq!(
        deserialize_error(AmountDue::get(GetInvoiceResponse { data: None })),
        "failed to deserialize amount_due request data"
    );
}

#[test]
fn amount_due_without_business() {
    let answer = GetInvoiceResponse { data: Some(GetInvoiceData { business: None }) };
    assert_eq!(deserialize_error(AmountDue::get(answer)), "failed to deserialize business data");
}

#[test]
fn amount_due_without_invoice() {
    let answer = GetInvoiceResponse {
        data: Some(GetInvoiceData { business: Some(GetInvoiceBusiness { invoice: None }) }),
    };
    assert_eq!(deserialize_error(AmountDue::get(answer)), "failed to deserialize invoice data");
}

#[test]
fn amount_due_that_cannot_be_read() {
    assert_eq!(
        deserialize_error(AmountDue::get(amount_answer("ten"))),
        "failed to deserialize invoice amount"
    );
}

#[test]
fn queries_hold_their_variables() {
    let business = "biz-1".to_string();
    let find = FindInvoice::build_query(&business, &"INV-1".to_string());
    assert_eq!(find.business_id, "biz-1");
    assert_eq!(find.invoice_number, "INV-1");
    let get = GetInvoice::build_query(&business, "id-1".to_string());
    assert_eq!(get.business_id, "biz-1");
    assert_eq!(get.invoice_id, "id-1");
}
