//! Request span binding: from a request's headers to a transaction in scope.

use rocket::http::HeaderMap;
use sentry::{Scope, Transaction, TransactionContext, TransactionOrSpan};
use vstd::prelude::*;

verus! {

/// A header line as its name and its value.
pub type Line = (Seq<char>, Seq<char>);

/// Name of the header that carries the upstream trace.
pub open spec fn trace_header() -> Seq<char> {
    "sentry-trace"@
}

/// Name under which every request transaction is reported.
pub open spec fn transaction_name() -> Seq<char> {
    "ApiGateway"@
}

/// Operation under which every request transaction is reported.
pub open spec fn transaction_op() -> Seq<char> {
    "on_request"@
}

/// The code point of `c`, with the upper-case ASCII letters mapped to their
/// lower-case counterparts.
pub open spec fn ascii_fold(c: char) -> int {
    let n = c as int;
    if 65 <= n <= 90 {
        n + 32
    } else {
        n
    }
}

/// Header names are compared without regard to ASCII case.
pub open spec fn same_name(a: Seq<char>, b: Seq<char>) -> bool {
    &&& a.len() == b.len()
    &&& forall|i: int| 0 <= i < a.len() ==> ascii_fold(#[trigger] a[i]) == ascii_fold(b[i])
}

/// The value of the first line of `lines` that is named `name`.
pub open spec fn first_value(lines: Seq<Line>, name: Seq<char>) -> Option<Seq<char>>
    decreases lines.len(),
{
    if lines.len() == 0 {
        None
    } else if same_name(lines[0].0, name) {
        Some(lines[0].1)
    } else {
        first_value(lines.drop_first(), name)
    }
}

/// The parent that a request with the header lines `lines` names: the value
/// of its first trace header.
pub open spec fn trace_parent(lines: Seq<Line>) -> Option<Seq<char>> {
    first_value(lines, trace_header())
}

/// The pairs from which a trace with the parent `parent` is continued: the
/// parent under the canonical header name, or nothing.
pub open spec fn trace_pairs(parent: Option<Seq<char>>) -> Seq<Line> {
    match parent {
        Some(value) => seq![(trace_header(), value)],
        None => Seq::empty(),
    }
}

/// Whether no line before position `i` of `lines` is named `name`.
pub open spec fn none_before(lines: Seq<Line>, name: Seq<char>, i: int) -> bool {
    forall|j: int| 0 <= j < i ==> !same_name(#[trigger] lines[j].0, name)
}

/// A lookup finds nothing exactly when no line carries the name.
pub proof fn lemma_absent(lines: Seq<Line>, name: Seq<char>)
    ensures
        first_value(lines, name) is None <==> none_before(lines, name, lines.len() as int),
    decreases lines.len(),
{
    if lines.len() > 0 {
        let rest = lines.drop_first();
        lemma_absent(rest, name);
        if !same_name(lines[0].0, name) {
            if none_before(rest, name, rest.len() as int) {
                assert forall|j: int| 0 <= j < lines.len() implies !same_name(
                    #[trigger] lines[j].0,
                    name,
                ) by {
                    if j > 0 {
                        assert(lines[j] == rest[j - 1]);
                    }
                }
            }
            if none_before(lines, name, lines.len() as int) {
                assert forall|j: int| 0 <= j < rest.len() implies !same_name(
                    #[trigger] rest[j].0,
                    name,
                ) by {
                    assert(rest[j] == lines[j + 1]);
                }
            }
        }
    }
}

/// A lookup returns the value of the earliest line that carries the name,
/// however many later lines carry it too.
pub proof fn lemma_first_wins(lines: Seq<Line>, name: Seq<char>, i: int)
    requires
        0 <= i < lines.len(),
        same_name(lines[i].0, name),
        none_before(lines, name, i),
    ensures
        first_value(lines, name) == Some(lines[i].1),
    decreases lines.len(),
{
    if i > 0 {
        let rest = lines.drop_first();
        assert(!same_name(lines[0].0, name));
        assert(rest[i - 1] == lines[i]);
        assert forall|j: int| 0 <= j < i - 1 implies !same_name(#[trigger] rest[j].0, name) by {
            assert(rest[j] == lines[j + 1]);
        }
        lemma_first_wins(rest, name, i - 1);
    }
}

/// A request without a trace header has no parent: its transaction starts a
/// trace of its own.
pub proof fn law_no_header_no_parent(lines: Seq<Line>)
    requires
        none_before(lines, trace_header(), lines.len() as int),
    ensures
        trace_parent(lines) is None,
        trace_pairs(trace_parent(lines)) == Seq::<Line>::empty(),
{
    lemma_absent(lines, trace_header());
}

/// The parent is the value of the earliest trace header: of the only one
/// where there is one, of the first where there are several, whatever the
/// later ones hold and however the name is capitalised.
pub proof fn law_first_header_wins(lines: Seq<Line>, i: int)
    requires
        0 <= i < lines.len(),
        same_name(lines[i].0, trace_header()),
        none_before(lines, trace_header(), i),
    ensures
        trace_parent(lines) == Some(lines[i].1),
        trace_pairs(trace_parent(lines)) == seq![(trace_header(), lines[i].1)],
{
    lemma_first_wins(lines, trace_header(), i);
}

/// The view of the pairs handed to the trace continuation.
pub open spec fn pairs_view(pairs: Seq<(&str, &str)>) -> Seq<Line> {
    pairs.map_values(|pair: (&str, &str)| (pair.0@, pair.1@))
}

/// Rocket's header collection. Nothing of its layout is known here.
#[verifier::external_type_specification]
#[verifier::external_body]
pub struct ExHeaderMap<'h>(HeaderMap<'h>);

/// Sentry's transaction context.
#[verifier::external_type_specification]
#[verifier::external_body]
pub struct ExTransactionContext(TransactionContext);

/// Sentry's transaction.
#[verifier::external_type_specification]
#[verifier::external_body]
pub struct ExTransaction(Transaction);

/// Sentry's handle on either a transaction or a span below one.
#[verifier::external_type_specification]
#[verifier::external_body]
pub struct ExTransactionOrSpan(TransactionOrSpan);

/// Sentry's scope, which knows the span that is current.
#[verifier::external_type_specification]
#[verifier::external_body]
pub struct ExScope(Scope);

/// The header lines that a header collection holds, in the order in which
/// `HeaderMap::iter` yields them: name by name, and under one name the values
/// from the oldest to the newest.
pub uninterp spec fn header_lines(map: HeaderMap<'_>) -> Seq<Line>;

/// `HeaderMap::get_one`. Assumed: it returns the oldest value stored under
/// `name`, names compared without regard to ASCII case, and `None` where no
/// value is stored under it. Over the lines of the collection that is the
/// value of the first line so named.
#[verifier::external_body]
fn get_one<'a>(map: &'a HeaderMap<'_>, name: &str) -> (value: Option<&'a str>)
    ensures
        match value {
            Some(v) => first_value(header_lines(*map), name@) == Some(v@),
            None => first_value(header_lines(*map), name@) is None,
        },
{
    map.get_one(name)
}

/// `TransactionContext::continue_from_headers`. Nothing is assumed of the
/// context it returns: the identifiers of a fresh trace are drawn at random.
#[verifier::external_body]
fn continue_from_headers(name: &str, op: &str, headers: Vec<(&str, &str)>) -> TransactionContext {
    TransactionContext::continue_from_headers(name, op, headers)
}

/// `sentry::start_transaction`. Nothing is assumed of the transaction: which
/// client it reports to depends on the hub that is current.
#[verifier::external_body]
fn start_transaction(context: TransactionContext) -> Transaction {
    sentry::start_transaction(context)
}

/// The span that is active in a scope: what `Scope::get_span` returns on it.
pub uninterp spec fn active_span(scope: Scope) -> Option<TransactionOrSpan>;

/// A transaction in the form that a scope takes: what `TransactionOrSpan::from`
/// returns on a handle on it.
pub uninterp spec fn span_of(transaction: Transaction) -> TransactionOrSpan;

/// `Transaction::clone` with `TransactionOrSpan::from`. Assumed: the result
/// is a handle on the same transaction, wrapped as a span. Two handles on one
/// transaction are equal to Sentry, so the result is named by the transaction.
#[verifier::external_body]
fn as_span(transaction: &Transaction) -> (span: TransactionOrSpan)
    ensures
        span == span_of(*transaction),
{
    transaction.clone().into()
}

/// `Scope::set_span`. Assumed: afterwards `span` is the active span of
/// `scope`, the one that `Scope::get_span` returns, whatever was active
/// before. Nothing is assumed of the rest of the scope.
#[verifier::external_body]
fn set_span(scope: &mut Scope, span: Option<TransactionOrSpan>)
    ensures
        active_span(*final(scope)) == span,
{
    scope.set_span(span)
}

/// `sentry::configure_scope`: where the current hub has an enabled client,
/// [`make_current`] runs once on its scope; elsewhere nothing runs. Nothing
/// is assumed of it.
#[verifier::external_body]
fn configure_scope(transaction: &Transaction) {
    sentry::configure_scope(|scope| make_current(scope, transaction))
}

/// Makes `transaction` the active span of `scope`, in place of whatever was
/// active before: code that later asks the scope for its span gets this
/// transaction.
fn make_current(scope: &mut Scope, transaction: &Transaction)
    ensures
        active_span(*final(scope)) == Some(span_of(*transaction)),
{
    set_span(scope, Some(as_span(transaction)));
}

/// From what a request's transaction is continued: the two fixed labels of
/// this entry point, and the upstream parent where the request names one.
#[derive(Clone, Copy, Debug)]
pub struct TraceContinuation<'a> {
    /// Name of the transaction.
    pub name: &'static str,
    /// Operation of the transaction.
    pub op: &'static str,
    /// The upstream trace as the request gave it, unparsed.
    pub parent: Option<&'a str>,
}

impl<'a> TraceContinuation<'a> {
    /// The parent as a sequence of characters.
    pub open spec fn parent_view(&self) -> Option<Seq<char>> {
        match self.parent {
            Some(value) => Some(value@),
            None => None,
        }
    }

    /// Reads the continuation off a request's headers. The parent is the
    /// value of the first `sentry-trace` header, taken as it stands; a request
    /// without one has no parent.
    pub fn from_headers(headers: &'a HeaderMap<'_>) -> (continuation: Self)
        ensures
            continuation.name@ == transaction_name(),
            continuation.op@ == transaction_op(),
            continuation.parent_view() == trace_parent(header_lines(*headers)),
    {
        TraceContinuation {
            name: "ApiGateway",
            op: "on_request",
            parent: get_one(headers, "sentry-trace"),
        }
    }

    /// The header pairs from which Sentry continues the trace: the parent
    /// under the name `sentry-trace`, or no pair at all.
    pub fn header_pairs(&self) -> (pairs: Vec<(&'static str, &'a str)>)
        ensures
            pairs_view(pairs@) == trace_pairs(self.parent_view()),
            pairs@.len() == (if self.parent is Some { 1nat } else { 0nat }),
    {
        let mut pairs: Vec<(&'static str, &'a str)> = Vec::new();
        if let Some(sentry_trace) = self.parent {
            pairs.push(("sentry-trace", sentry_trace));
        }
        assert(pairs_view(pairs@) =~= trace_pairs(self.parent_view()));
        pairs
    }
}

/// Starts the transaction of one request and makes it the current span.
///
/// The transaction continues the trace named by the request's first
/// `sentry-trace` header and starts a new trace where there is none, or none
/// that Sentry can read. It never fails, whether the client is enabled or not.
pub fn on_request(headers: &HeaderMap<'_>) {
    let continuation = TraceContinuation::from_headers(headers);
    let context = continue_from_headers(
        continuation.name,
        continuation.op,
        continuation.header_pairs(),
    );
    let transaction = start_transaction(context);
    configure_scope(&transaction);
}

} // verus!
