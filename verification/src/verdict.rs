//! What is expected of a faucet's reply, and how a reply falls short of it.

use crate::failure::{Failure, FailureView, Reason};
use crate::json::{member_of_member, trees, Json, JsonTree};
use crate::nwc::{code_of, error_code, error_says, refusal, refusal_of};
use crate::text;
use crate::text::{debug_list, contains_text, lowercase, texts};
use vstd::prelude::*;

verus! {

/// What is expected of a reply.
#[derive(Clone, Copy, Debug, PartialEq, Eq, Structural)]
pub enum Check {
    /// The asker of this number is paid.
    AskerPaid(u64),
    /// A key inside its own quota is refused, by the total cap.
    CapRefuses,
    /// A Lightning method is refused as not implemented.
    LightningRefused,
    /// A key that only an impostor granted is unauthorized.
    ImpostorIgnored,
    /// A revoked key is refused for the revocation.
    Revoked,
    /// A key with no grant of its own is authorized, whether it is paid or not.
    StrangerAuthorized,
    /// A key with an empty grant is refused for it, although others are granted.
    Denied,
    /// The first request under a rate is not rate limited.
    RateNotYet,
    /// The second request under a rate is rate limited.
    RateLimits,
    /// A granted key is paid its first coin.
    FirstCoin,
    /// A second coin inside the window is refused, for the quota.
    QuotaRefuses,
    /// The faucet lists what it implements.
    Methods,
}

/// Whether an error code says that the asker is not authorized.
pub open spec fn denies(code: Seq<char>) -> bool {
    code == "UNAUTHORIZED"@ || code == "RESTRICTED"@
}

/// The error code of a reply, or `<paid>` where it has none.
pub open spec fn code_or_paid(reply: JsonTree) -> Seq<char> {
    match code_of(reply) {
        Some(code) => code,
        None => "<paid>"@,
    }
}

/// The texts among a list of values, in order.
pub open spec fn text_items(items: Seq<JsonTree>) -> Seq<Seq<char>>
    decreases items.len(),
{
    if items.len() == 0 {
        Seq::empty()
    } else {
        match items.last() {
            JsonTree::Text(s) => text_items(items.drop_last()).push(s),
            _ => text_items(items.drop_last()),
        }
    }
}

/// The methods that a reply to `get_info` lists.
pub open spec fn methods_of(reply: JsonTree) -> Option<JsonTree> {
    member_of_member(reply, "result"@, "methods"@)
}

/// The methods that the faucet implements, in the order in which it lists them.
pub open spec fn implemented() -> Seq<Seq<char>> {
    seq!["get_balance"@, "get_info"@, "pay_onchain"@]
}

/// Whether a reply is what is expected.
pub open spec fn met(check: Check, reply: JsonTree) -> bool {
    match check {
        Check::AskerPaid(_) => refusal_of(reply) is None,
        Check::CapRefuses => refusal_of(reply) matches Some(message) && contains_text(
            message,
            "total cap"@,
        ),
        Check::LightningRefused => code_of(reply) == Some("NOT_IMPLEMENTED"@),
        Check::ImpostorIgnored => code_of(reply) == Some("UNAUTHORIZED"@),
        Check::Revoked => code_of(reply) matches Some(code) && denies(code),
        Check::StrangerAuthorized => !denies(code_or_paid(reply)),
        Check::Denied => denies(code_or_paid(reply)),
        Check::RateNotYet => code_or_paid(reply) != "RATE_LIMITED"@,
        Check::RateLimits => code_or_paid(reply) == "RATE_LIMITED"@,
        Check::FirstCoin => refusal_of(reply) is None,
        Check::QuotaRefuses => refusal_of(reply) matches Some(message) && contains_text(
            lowercase(message),
            "quota"@,
        ),
        Check::Methods => methods_of(reply) matches Some(JsonTree::Array(items)) && text_items(
            items,
        ) == implemented(),
    }
}

/// The reason alone, where nothing was seen instead.
pub open spec fn bare(reason: Reason, label: Seq<char>) -> FailureView {
    FailureView { reason, label, detail: Seq::empty(), later: Seq::empty() }
}

/// The reason, with what was seen instead.
pub open spec fn seen(reason: Reason, label: Seq<char>, detail: Seq<char>) -> FailureView {
    FailureView { reason, label, detail, later: Seq::empty() }
}

/// How a reply that is not what is expected fails, on the chain of this label.
pub open spec fn shortfall(check: Check, label: Seq<char>, reply: JsonTree) -> FailureView {
    let message = refusal_of(reply);
    let code = code_of(reply);
    match check {
        Check::AskerPaid(asker) => seen(Reason::AskerRefused(asker), label, message->0),
        Check::CapRefuses => match message {
            Some(m) => seen(Reason::NotByCap, label, m),
            None => bare(Reason::PaidPastCap, label),
        },
        Check::LightningRefused => match code {
            Some(c) => seen(Reason::LightningOtherwise, label, c),
            None => bare(Reason::LightningNotRefused, label),
        },
        Check::ImpostorIgnored => match code {
            Some(c) => seen(Reason::ImpostorOtherwise, label, c),
            None => bare(Reason::ImpostorCounted, label),
        },
        Check::Revoked => match code {
            Some(c) => seen(Reason::RevokedOtherwise, label, c),
            None => bare(Reason::NotRevoked, label),
        },
        Check::StrangerAuthorized => seen(Reason::StrangerRefused, label, code_or_paid(reply)),
        Check::Denied => seen(Reason::DeniedLetThrough, label, code_or_paid(reply)),
        Check::RateNotYet => bare(Reason::RateTooSoon, label),
        Check::RateLimits => seen(Reason::RateIgnored, label, code_or_paid(reply)),
        Check::FirstCoin => seen(Reason::FirstRefused, label, message->0),
        Check::QuotaRefuses => match message {
            Some(m) => seen(Reason::NotForQuota, label, m),
            None => bare(Reason::QuotaIgnored, label),
        },
        Check::Methods => match methods_of(reply) {
            Some(JsonTree::Array(items)) => seen(
                Reason::WrongMethods,
                label,
                debug_list(text_items(items)),
            ),
            Some(_) => bare(Reason::MethodsNoList, label),
            None => bare(Reason::NoMethods, label),
        },
    }
}

fn denies_code(code: &str) -> (r: bool)
    ensures
        r == denies(code@),
{
    text::same(code, "UNAUTHORIZED") || text::same(code, "RESTRICTED")
}

fn reply_code(reply: &Json) -> (r: String)
    ensures
        r@ == code_or_paid(reply@),
{
    match error_code(reply) {
        Some(code) => code,
        None => "<paid>".to_owned(),
    }
}

/// The refusal message, or a failure carrying `why`.
pub fn resp_refusal(v: &Json, why: Failure) -> (r: Result<String, Failure>)
    ensures
        r is Ok <==> refusal_of(v@) is Some,
        r matches Ok(message) ==> refusal_of(v@) == Some(message@),
        r matches Err(failure) ==> failure@ == why@,
{
    match refusal(v) {
        Some(message) => Ok(message),
        None => Err(why),
    }
}

/// The texts among the items of an array, in order.
fn listed(items: &Vec<Json>) -> (r: Vec<String>)
    ensures
        texts(r@) == text_items(trees(items@)),
{
    let mut out: Vec<String> = Vec::new();
    let mut i: usize = 0;
    while i < items.len()
        invariant
            i <= items@.len(),
            texts(out@) == text_items(trees(items@).take(i as int)),
        decreases items@.len() - i,
    {
        let ghost after = trees(items@).take(i + 1);
        let ghost before = out@;
        proof {
            assert(after.drop_last() =~= trees(items@).take(i as int));
            assert(after.last() == items@[i as int]@);
        }
        match items[i].as_text() {
            Some(s) => {
                out.push(s);
                proof {
                    assert(texts(out@) =~= texts(before).push(s@));
                }
            },
            None => {},
        }
        i = i + 1;
    }
    proof {
        assert(trees(items@).take(i as int) =~= trees(items@));
    }
    out
}

/// Whether the listed methods are the implemented ones, in their order.
fn lists_implemented(methods: &Vec<String>) -> (r: bool)
    ensures
        r == (texts(methods@) == implemented()),
{
    proof {
        assert(texts(methods@).len() == methods@.len());
        assert(implemented().len() == 3);
    }
    if methods.len() != 3 {
        return false;
    }
    let r = text::same(methods[0].as_str(), "get_balance") && text::same(
        methods[1].as_str(),
        "get_info",
    ) && text::same(methods[2].as_str(), "pay_onchain");
    proof {
        let seen = texts(methods@);
        if r {
            assert(seen =~= implemented());
        } else {
            assert(seen[0] == methods@[0]@ && seen[1] == methods@[1]@ && seen[2]
                == methods@[2]@);
            assert(implemented()[0] == "get_balance"@ && implemented()[1] == "get_info"@
                && implemented()[2] == "pay_onchain"@);
        }
    }
    r
}

fn judge_methods(label: &str, reply: &Json) -> (r: Option<Failure>)
    ensures
        r is None <==> met(Check::Methods, reply@),
        r matches Some(failure) ==> failure@ == shortfall(Check::Methods, label@, reply@),
{
    match reply.get_in("result", "methods") {
        Some(methods) => match methods.as_array() {
            Some(items) => {
                let names = listed(items);
                if lists_implemented(&names) {
                    None
                } else {
                    Some(Failure::seen(Reason::WrongMethods, label, text::quoted_list(&names)))
                }
            },
            None => Some(Failure::bare(Reason::MethodsNoList, label)),
        },
        None => Some(Failure::bare(Reason::NoMethods, label)),
    }
}

/// Holds a reply to what is expected of it: `None`, or how it fails.
pub fn judge(check: Check, label: &str, reply: &Json) -> (r: Option<Failure>)
    ensures
        r is None <==> met(check, reply@),
        r matches Some(failure) ==> failure@ == shortfall(check, label@, reply@),
{
    match check {
        Check::AskerPaid(asker) => match refusal(reply) {
            Some(message) => Some(Failure::seen(Reason::AskerRefused(asker), label, message)),
            None => None,
        },
        Check::CapRefuses => match resp_refusal(reply, Failure::bare(Reason::PaidPastCap, label)) {
            Ok(message) => if text::contains(message.as_str(), "total cap") {
                None
            } else {
                Some(Failure::seen(Reason::NotByCap, label, message))
            },
            Err(failure) => Some(failure),
        },
        Check::LightningRefused => match error_code(reply) {
            Some(code) => if text::same(code.as_str(), "NOT_IMPLEMENTED") {
                None
            } else {
                Some(Failure::seen(Reason::LightningOtherwise, label, code))
            },
            None => Some(Failure::bare(Reason::LightningNotRefused, label)),
        },
        Check::ImpostorIgnored => match error_code(reply) {
            Some(code) => if text::same(code.as_str(), "UNAUTHORIZED") {
                None
            } else {
                Some(Failure::seen(Reason::ImpostorOtherwise, label, code))
            },
            None => Some(Failure::bare(Reason::ImpostorCounted, label)),
        },
        Check::Revoked => match error_code(reply) {
            Some(code) => if denies_code(code.as_str()) {
                None
            } else {
                Some(Failure::seen(Reason::RevokedOtherwise, label, code))
            },
            None => Some(Failure::bare(Reason::NotRevoked, label)),
        },
        Check::StrangerAuthorized => {
            let code = reply_code(reply);
            if denies_code(code.as_str()) {
                Some(Failure::seen(Reason::StrangerRefused, label, code))
            } else {
                None
            }
        },
        Check::Denied => {
            let code = reply_code(reply);
            if denies_code(code.as_str()) {
                None
            } else {
                Some(Failure::seen(Reason::DeniedLetThrough, label, code))
            }
        },
        Check::RateNotYet => {
            let code = reply_code(reply);
            if text::same(code.as_str(), "RATE_LIMITED") {
                Some(Failure::bare(Reason::RateTooSoon, label))
            } else {
                None
            }
        },
        Check::RateLimits => {
            let code = reply_code(reply);
            if text::same(code.as_str(), "RATE_LIMITED") {
                None
            } else {
                Some(Failure::seen(Reason::RateIgnored, label, code))
            }
        },
        Check::FirstCoin => match refusal(reply) {
            Some(message) => Some(Failure::seen(Reason::FirstRefused, label, message)),
            None => None,
        },
        Check::QuotaRefuses => match resp_refusal(
            reply,
            Failure::bare(Reason::QuotaIgnored, label),
        ) {
            Ok(message) => {
                let lower = text::to_lower(message.as_str());
                if text::contains(lower.as_str(), "quota") {
                    None
                } else {
                    Some(Failure::seen(Reason::NotForQuota, label, message))
                }
            },
            Err(failure) => Some(failure),
        },
        Check::Methods => judge_methods(label, reply),
    }
}

/// What a payment is taken for: a reply with no error meets the expectations of payment
/// and of authorization, and none of a refusal. A faucet that pays where it should have
/// refused does not pass.
pub proof fn law_payment_is_no_refusal(reply: JsonTree, asker: u64)
    requires
        refusal_of(reply) is None,
        code_of(reply) is None,
    ensures
        met(Check::AskerPaid(asker), reply),
        met(Check::FirstCoin, reply),
        met(Check::StrangerAuthorized, reply),
        met(Check::RateNotYet, reply),
        !met(Check::CapRefuses, reply),
        !met(Check::LightningRefused, reply),
        !met(Check::ImpostorIgnored, reply),
        !met(Check::Revoked, reply),
        !met(Check::Denied, reply),
        !met(Check::RateLimits, reply),
        !met(Check::QuotaRefuses, reply),
{
    lemma_codes_differ();
}

/// A refusal by a limit is no refusal of authority: where the code is that of an exceeded
/// quota, a grant took effect, and a limit caught it. That is neither an ignored grant nor
/// a revocation, and it authorizes.
pub proof fn law_limit_is_no_denial(reply: JsonTree)
    requires
        code_of(reply) == Some("QUOTA_EXCEEDED"@),
    ensures
        !met(Check::ImpostorIgnored, reply),
        !met(Check::Revoked, reply),
        !met(Check::Denied, reply),
        met(Check::StrangerAuthorized, reply),
        met(Check::RateNotYet, reply),
{
    lemma_codes_differ();
}

/// Of each reply it is decided whether it authorizes or denies, and whether it limits a rate
/// or not.
pub proof fn law_opposite_expectations(reply: JsonTree)
    ensures
        met(Check::StrangerAuthorized, reply) <==> !met(Check::Denied, reply),
        met(Check::RateNotYet, reply) <==> !met(Check::RateLimits, reply),
{
}

/// The codes that the expectations tell apart are different texts.
pub(crate) proof fn lemma_codes_differ()
    ensures
        "<paid>"@ != "UNAUTHORIZED"@,
        "<paid>"@ != "RESTRICTED"@,
        "<paid>"@ != "RATE_LIMITED"@,
        "QUOTA_EXCEEDED"@ != "UNAUTHORIZED"@,
        "QUOTA_EXCEEDED"@ != "RESTRICTED"@,
        "QUOTA_EXCEEDED"@ != "RATE_LIMITED"@,
{
    reveal_strlit("<paid>");
    reveal_strlit("UNAUTHORIZED");
    reveal_strlit("RESTRICTED");
    reveal_strlit("RATE_LIMITED");
    reveal_strlit("QUOTA_EXCEEDED");
    assert("<paid>"@.len() == 6);
    assert("UNAUTHORIZED"@.len() == 12);
    assert("RESTRICTED"@.len() == 10);
    assert("RATE_LIMITED"@.len() == 12);
    assert("QUOTA_EXCEEDED"@.len() == 14);
}

/// Whether a reply has no such text in its error.
pub open spec fn error_lacks(reply: JsonTree, key: Seq<char>) -> bool {
    forall|text: Seq<char>| !#[trigger] error_says(reply, key, text)
}

proof fn lemma_error(reply: JsonTree)
    ensures
        refusal_of(reply) is None <==> error_lacks(reply, "message"@),
        code_of(reply) is None <==> error_lacks(reply, "code"@),
        forall|m: Seq<char>| #[trigger]
            error_says(reply, "message"@, m) <==> refusal_of(reply) == Some(m),
        forall|c: Seq<char>| #[trigger]
            error_says(reply, "code"@, c) <==> code_of(reply) == Some(c),
{
    if refusal_of(reply) is Some {
        assert(error_says(reply, "message"@, refusal_of(reply)->0));
    }
    if code_of(reply) is Some {
        assert(error_says(reply, "code"@, code_of(reply)->0));
    }
}

/// Whether a failure is this one, on this chain, with this seen instead.
pub open spec fn tells(f: Failure, reason: Reason, label: Seq<char>, detail: Seq<char>) -> bool {
    &&& f.reason == reason
    &&& f.label@ == label
    &&& f.detail@ == detail
}

/// A reply is a payment where its error says nothing, and only there: any message in it, with
/// any code, is a refusal, and is told.
pub proof fn law_judges_payment(
    asker: u64,
    label: &str,
    reply: &Json,
    paid: Option<Failure>,
    first: Option<Failure>,
    m: Seq<char>,
)
    requires
        call_ensures(judge, (Check::AskerPaid(asker), label, reply), paid),
        call_ensures(judge, (Check::FirstCoin, label, reply), first),
    ensures
        paid is None <==> error_lacks(reply@, "message"@),
        first is None <==> error_lacks(reply@, "message"@),
        error_says(reply@, "message"@, m) ==> (paid matches Some(f) && tells(
            f,
            Reason::AskerRefused(asker),
            label@,
            m,
        )) && (first matches Some(f) && tells(f, Reason::FirstRefused, label@, m)),
{
    lemma_error(reply@);
}

/// A reply is a refusal by the total cap where its error has a message that names it; another
/// message is told, and a reply without one is a payment past the cap.
pub proof fn law_judges_the_cap(label: &str, reply: &Json, r: Option<Failure>, m: Seq<char>)
    requires
        call_ensures(judge, (Check::CapRefuses, label, reply), r),
    ensures
        error_says(reply@, "message"@, m) ==> (r is None <==> contains_text(m, "total cap"@)),
        error_says(reply@, "message"@, m) ==> (r matches Some(f) ==> tells(
            f,
            Reason::NotByCap,
            label@,
            m,
        )),
        error_lacks(reply@, "message"@) ==> (r matches Some(f) && tells(
            f,
            Reason::PaidPastCap,
            label@,
            Seq::empty(),
        )),
{
    lemma_error(reply@);
}

/// A reply is a refusal for the quota where its error has a message that names it, in
/// whatever case; another message is told, and a reply without one is a payment.
pub proof fn law_judges_the_quota(label: &str, reply: &Json, r: Option<Failure>, m: Seq<char>)
    requires
        call_ensures(judge, (Check::QuotaRefuses, label, reply), r),
    ensures
        error_says(reply@, "message"@, m) ==> (r is None <==> contains_text(
            lowercase(m),
            "quota"@,
        )),
        error_says(reply@, "message"@, m) ==> (r matches Some(f) ==> tells(
            f,
            Reason::NotForQuota,
            label@,
            m,
        )),
        error_lacks(reply@, "message"@) ==> (r matches Some(f) && tells(
            f,
            Reason::QuotaIgnored,
            label@,
            Seq::empty(),
        )),
{
    lemma_error(reply@);
}

/// What a code is taken for: `NOT_IMPLEMENTED` alone refuses a Lightning method,
/// `UNAUTHORIZED` alone ignores an impostor, that or `RESTRICTED` revokes. Any other code is
/// told; a reply without one is no refusal.
pub proof fn law_judges_refusals_by_code(
    label: &str,
    reply: &Json,
    lightning: Option<Failure>,
    impostor: Option<Failure>,
    revoked: Option<Failure>,
    c: Seq<char>,
)
    requires
        call_ensures(judge, (Check::LightningRefused, label, reply), lightning),
        call_ensures(judge, (Check::ImpostorIgnored, label, reply), impostor),
        call_ensures(judge, (Check::Revoked, label, reply), revoked),
    ensures
        error_says(reply@, "code"@, c) ==> (lightning is None <==> c == "NOT_IMPLEMENTED"@) && (
        impostor is None <==> c == "UNAUTHORIZED"@) && (revoked is None <==> c == "UNAUTHORIZED"@
            || c == "RESTRICTED"@),
        error_says(reply@, "code"@, c) ==> (lightning matches Some(f) ==> tells(
            f,
            Reason::LightningOtherwise,
            label@,
            c,
        )) && (impostor matches Some(f) ==> tells(f, Reason::ImpostorOtherwise, label@, c)) && (
        revoked matches Some(f) ==> tells(f, Reason::RevokedOtherwise, label@, c)),
        error_lacks(reply@, "code"@) ==> (lightning matches Some(f) && tells(
            f,
            Reason::LightningNotRefused,
            label@,
            Seq::empty(),
        )) && (impostor matches Some(f) && tells(
            f,
            Reason::ImpostorCounted,
            label@,
            Seq::empty(),
        )) && (revoked matches Some(f) && tells(f, Reason::NotRevoked, label@, Seq::empty())),
{
    lemma_error(reply@);
}

/// What a code says of authority and of a rate: a stranger is authorized, and the denied are
/// not, unless the code is `UNAUTHORIZED` or `RESTRICTED`; a rate limits where it is
/// `RATE_LIMITED`. A reply without a code authorizes and does not limit, and is told as
/// `<paid>`.
pub proof fn law_judges_authority_and_rate(
    label: &str,
    reply: &Json,
    stranger: Option<Failure>,
    denied: Option<Failure>,
    not_yet: Option<Failure>,
    limits: Option<Failure>,
    c: Seq<char>,
)
    requires
        call_ensures(judge, (Check::StrangerAuthorized, label, reply), stranger),
        call_ensures(judge, (Check::Denied, label, reply), denied),
        call_ensures(judge, (Check::RateNotYet, label, reply), not_yet),
        call_ensures(judge, (Check::RateLimits, label, reply), limits),
    ensures
        error_says(reply@, "code"@, c) ==> (denied is None <==> c == "UNAUTHORIZED"@ || c
            == "RESTRICTED"@) && (stranger is Some <==> c == "UNAUTHORIZED"@ || c
            == "RESTRICTED"@) && (limits is None <==> c == "RATE_LIMITED"@) && (not_yet is Some
            <==> c == "RATE_LIMITED"@),
        error_says(reply@, "code"@, c) ==> (stranger matches Some(f) ==> tells(
            f,
            Reason::StrangerRefused,
            label@,
            c,
        )) && (denied matches Some(f) ==> tells(f, Reason::DeniedLetThrough, label@, c)) && (limits
            matches Some(f) ==> tells(f, Reason::RateIgnored, label@, c)),
        not_yet matches Some(f) ==> tells(f, Reason::RateTooSoon, label@, Seq::empty()),
        error_lacks(reply@, "code"@) ==> stranger is None && not_yet is None && (denied
            matches Some(f) && tells(f, Reason::DeniedLetThrough, label@, "<paid>"@)) && (limits
            matches Some(f) && tells(f, Reason::RateIgnored, label@, "<paid>"@)),
{
    lemma_error(reply@);
    lemma_codes_differ();
}

/// The texts among values are found one by one, in order: each text is kept, and what is no
/// text is passed over.
pub proof fn law_text_items_one_by_one(items: Seq<JsonTree>, more: JsonTree)
    ensures
        text_items(Seq::empty()) == Seq::<Seq<char>>::empty(),
        more matches JsonTree::Text(s) ==> text_items(items.push(more)) == text_items(items).push(
            s,
        ),
        !(more is Text) ==> text_items(items.push(more)) == text_items(items),
{
    assert(items.push(more).drop_last() =~= items);
}

/// Whether a reply is an object with a member `result` that is an object with a member
/// `methods` that is this value.
pub open spec fn result_lists(reply: JsonTree, methods: JsonTree) -> bool {
    &&& reply matches JsonTree::Object(outer)
    &&& outer.dom().contains("result"@)
    &&& outer["result"@] matches JsonTree::Object(inner)
    &&& inner.dom().contains("methods"@)
    &&& inner["methods"@] == methods
}

/// A faucet lists what it implements where the texts in `result.methods` are `get_balance`,
/// `get_info` and `pay_onchain`, in this order; anything else is told.
pub proof fn law_judges_the_methods(
    label: &str,
    reply: &Json,
    r: Option<Failure>,
    items: Seq<JsonTree>,
)
    requires
        call_ensures(judge, (Check::Methods, label, reply), r),
    ensures
        result_lists(reply@, JsonTree::Array(items)) ==> (r is None <==> text_items(items) == seq![
            "get_balance"@,
            "get_info"@,
            "pay_onchain"@,
        ]),
        result_lists(reply@, JsonTree::Array(items)) ==> (r matches Some(f) ==> tells(
            f,
            Reason::WrongMethods,
            label@,
            debug_list(text_items(items)),
        )),
        r is None ==> exists|list: Seq<JsonTree>| #[trigger]
            result_lists(reply@, JsonTree::Array(list)),
        (forall|value: JsonTree| !#[trigger] result_lists(reply@, value)) ==> (r matches Some(f)
            && tells(f, Reason::NoMethods, label@, Seq::empty())),
        (exists|value: JsonTree| #[trigger] result_lists(reply@, value) && !(value is Array)) ==> (r
            matches Some(f) && tells(f, Reason::MethodsNoList, label@, Seq::empty())),
{
    if methods_of(reply@) is Some {
        assert(result_lists(reply@, methods_of(reply@)->0));
        if methods_of(reply@)->0 is Array {
            assert(result_lists(reply@, JsonTree::Array(methods_of(reply@)->0->Array_0)));
        }
    }
}

/// The refusal of a reply is its error's message; where it has none, why is told.
pub proof fn law_missing_refusal_is_told(v: &Json, why: Failure, r: Result<String, Failure>)
    requires
        call_ensures(resp_refusal, (v, why), r),
    ensures
        r matches Ok(message) ==> error_says(v@, "message"@, message@),
        r matches Err(f) ==> error_lacks(v@, "message"@) && f@ == why@,
{
    lemma_error(v@);
}

}
