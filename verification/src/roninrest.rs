//! The decoding service: its records and the requests made of it.

use vstd::prelude::*;
use crate::mongodb::Transaction;
use crate::retry::{Attempts, AttemptsState, Backoff};

verus! {

pub type RRTransactionHash = String;

/// A list of transaction hashes as the service reports them.
pub struct RRTransactionDict {
    pub transactions: Vec<RRTransactionHash>,
}

/// A transaction as the service reports it, before decoding.
pub struct RRTransaction {
    pub from: String,
    pub to: String,
    pub hash: String,
    pub block_number: u64,
}

impl Default for RRTransaction {
    fn default() -> (empty: RRTransaction)
        ensures
            empty.from@ == Seq::<char>::empty(),
            empty.to@ == Seq::<char>::empty(),
            empty.hash@ == Seq::<char>::empty(),
            empty.block_number == 0,
    {
        RRTransaction { from: String::new(), to: String::new(), hash: String::new(), block_number: 0 }
    }
}

/// An enriched transaction: a raw transaction together with its decoded
/// method call (`input`) and its decoded receipt (`output`).
#[derive(Debug)]
pub struct RRDecodedTransaction {
    pub from: String,
    pub to: String,
    pub hash: RRTransactionHash,
    pub block_number: u64,
    pub input: Option<serde_json::Value>,
    pub output: Option<serde_json::Value>,
}

impl RRDecodedTransaction {
    /// The record that `raw` becomes once both of its payloads are decoded.
    pub open spec fn enriched(
        raw: Transaction,
        input: serde_json::Value,
        output: serde_json::Value,
    ) -> RRDecodedTransaction {
        RRDecodedTransaction {
            from: raw.from,
            to: raw.to,
            hash: raw.hash,
            block_number: raw.block as u64,
            input: Some(input),
            output: Some(output),
        }
    }

    /// Whether both decoded payloads are present.
    pub open spec fn paired(self) -> bool {
        self.input is Some && self.output is Some
    }

    /// Builds the enriched record of `raw` from its two decoded payloads.
    pub fn enrich(raw: Transaction, input: serde_json::Value, output: serde_json::Value) -> (record:
        RRDecodedTransaction)
        ensures
            record == Self::enriched(raw, input, output),
            record.paired(),
    {
        RRDecodedTransaction {
            from: raw.from,
            to: raw.to,
            hash: raw.hash,
            block_number: raw.block as u64,
            input: Some(input),
            output: Some(output),
        }
    }
}

/// How the client names itself to the service.
pub const DEFAULT_USER_AGENT: &'static str =
    "ronin/wally0.1.0 See: https://github.com/wehmoen/ronin-wally";

/// Where the service is found.
pub const DEFAULT_HOST: &'static str = "https://ronin.rest";

/// A `GET` request to the service.
#[derive(Debug)]
pub struct Request {
    pub url: String,
    /// The value of the `user-agent` header.
    pub user_agent: String,
}

/// The client of the decoding service: it says what to ask; sending is the
/// caller's part, and [`Attempts`] settles what comes back.
pub struct Adapter {
    pub host: String,
}

impl Adapter {
    /// A client of the service at [`DEFAULT_HOST`].
    pub fn new() -> (adapter: Adapter)
        ensures
            adapter.host@ == DEFAULT_HOST@,
    {
        Adapter { host: String::from_str(DEFAULT_HOST) }
    }

    /// The address at which the service decodes the method call of `hash`.
    pub open spec fn method_url(self, hash: Seq<char>) -> Seq<char> {
        self.host@ + "/ronin/decodeTransaction/"@ + hash
    }

    /// The address at which the service decodes the receipt of `hash`.
    pub open spec fn receipt_url(self, hash: Seq<char>) -> Seq<char> {
        self.host@ + "/ronin/decodeTransactionReceipt/"@ + hash
    }

    /// The request that has the method call of the transaction `hash`
    /// decoded.
    pub fn decode_method(&self, hash: &RRTransactionHash) -> (request: Request)
        ensures
            request.url@ == self.method_url(hash@),
            request.user_agent@ == DEFAULT_USER_AGENT@,
    {
        let url = self.host.clone().concat("/ronin/decodeTransaction/").concat(hash.as_str());
        Request { url, user_agent: String::from_str(DEFAULT_USER_AGENT) }
    }

    /// The request that has the receipt of the transaction `hash` decoded.
    pub fn decode_receipt(&self, hash: &RRTransactionHash) -> (request: Request)
        ensures
            request.url@ == self.receipt_url(hash@),
            request.user_agent@ == DEFAULT_USER_AGENT@,
    {
        let url = self.host.clone().concat("/ronin/decodeTransactionReceipt/").concat(
            hash.as_str(),
        );
        Request { url, user_agent: String::from_str(DEFAULT_USER_AGENT) }
    }

    /// The attempts of a request that has not been sent, under the client's
    /// retry policy.
    pub fn attempts(&self) -> (attempts: Attempts)
        ensures
            attempts@ == (AttemptsState { policy: Backoff::decoder_policy(), failed: 0 }),
    {
        Attempts::decoder()
    }
}

/// `text` with every occurrence of `pattern` replaced by `with`, the
/// occurrences taken from the left and not overlapping. An empty pattern
/// occurs nowhere.
pub open spec fn replaced(text: Seq<char>, pattern: Seq<char>, with: Seq<char>) -> Seq<char>
    decreases text.len(),
{
    if text.len() == 0 {
        text
    } else if pattern.len() > 0 && pattern.is_prefix_of(text) {
        with + replaced(text.skip(pattern.len() as int), pattern, with)
    } else {
        seq![text[0]] + replaced(text.skip(1), pattern, with)
    }
}

/// Whether `pattern` stands in `text` at the position `at`.
pub open spec fn occurs(text: Seq<char>, at: int, pattern: Seq<char>) -> bool {
    &&& 0 <= at
    &&& at + pattern.len() <= text.len()
    &&& text.subrange(at, at + pattern.len()) == pattern
}

/// Tests whether `pattern` stands in `text` at the position `at`, counted
/// in characters.
pub fn occurs_at(text: &str, at: usize, pattern: &str) -> (found: bool)
    ensures
        found == occurs(text@, at as int, pattern@),
{
    let len = text.unicode_len();
    let pattern_len = pattern.unicode_len();
    if at > len || pattern_len > len - at {
        return false;
    }
    let mut k: usize = 0;
    while k < pattern_len
        invariant
            k <= pattern_len,
            at + pattern_len <= len,
            len == text@.len(),
            pattern_len == pattern@.len(),
            forall|j: int| 0 <= j < k ==> text@[at + j] == pattern@[j],
        decreases pattern_len - k,
    {
        if text.get_char(at + k) != pattern.get_char(k) {
            assert(text@.subrange(at as int, at + pattern_len)[k as int] == text@[at + k]);
            return false;
        }
        k += 1;
    }
    assert(text@.subrange(at as int, at + pattern_len) =~= pattern@);
    true
}

/// Rewrites an address of the form `ronin:…` into the form `0x…`.
pub fn normalize_address(input: &str) -> (address: String)
    ensures
        address@ == replaced(input@, "ronin:"@, "0x"@),
{
    let len = input.unicode_len();
    let mut address = String::new();
    let mut at: usize = 0;
    proof {
        reveal_strlit("ronin:");
        assert(input@.skip(0) =~= input@);
    }
    while at < len
        invariant
            at <= len,
            len == input@.len(),
            "ronin:"@.len() == 6,
            replaced(input@, "ronin:"@, "0x"@) == address@ + replaced(
                input@.skip(at as int),
                "ronin:"@,
                "0x"@,
            ),
        decreases len - at,
    {
        let ghost rest = input@.skip(at as int);
        if occurs_at(input, at, "ronin:") {
            proof {
                assert(rest.subrange(0, 6) =~= input@.subrange(at as int, at + 6));
                assert(rest.skip(6) =~= input@.skip(at + 6));
            }
            address.append("0x");
            at += 6;
        } else {
            proof {
                if "ronin:"@.is_prefix_of(rest) {
                    assert(rest.subrange(0, 6) =~= input@.subrange(at as int, at + 6));
                }
                assert(rest.skip(1) =~= input@.skip(at + 1));
                assert(input@.subrange(at as int, at + 1) =~= seq![rest[0]]);
            }
            address.append(input.substring_char(at, at + 1));
            at += 1;
        }
    }
    address
}

/// Whether `at` is the place of the only `=` in `arg`.
pub open spec fn sole_separator(arg: Seq<char>, at: int) -> bool {
    &&& 0 <= at < arg.len()
    &&& arg[at] == '='
    &&& forall|j: int| 0 <= j < arg.len() && j != at ==> arg[j] != '='
}

/// What stands behind the `=` of an argument that holds exactly one; none
/// for an argument with no `=` or with several.
pub open spec fn value_of(arg: Seq<char>) -> Option<Seq<char>> {
    if exists|at: int| sole_separator(arg, at) {
        Some(arg.skip((choose|at: int| sole_separator(arg, at)) + 1))
    } else {
        None
    }
}

/// Whether `arg` sets the parameter `param`: it begins with `param` and
/// holds exactly one `=`.
pub open spec fn sets(param: Seq<char>, arg: Seq<char>) -> bool {
    param.is_prefix_of(arg) && value_of(arg) is Some
}

/// Reads the value of an argument of the form `name=value`.
pub fn value_of_arg(arg: &str) -> (value: Option<String>)
    ensures
        match value {
            Some(text) => value_of(arg@) == Some(text@),
            None => value_of(arg@) is None,
        },
{
    let len = arg.unicode_len();
    let mut first: usize = 0;
    let mut seen: u8 = 0;
    let ghost mut second: int = 0;
    let mut at: usize = 0;
    while at < len
        invariant
            at <= len,
            len == arg@.len(),
            seen <= 2,
            seen == 0 ==> forall|j: int| 0 <= j < at ==> arg@[j] != '=',
            seen == 1 ==> first < at && arg@[first as int] == '=' && forall|j: int|
                0 <= j < at && j != first ==> arg@[j] != '=',
            seen == 2 ==> 0 <= first < second < at && arg@[first as int] == '=' && arg@[second]
                == '=',
        decreases len - at,
    {
        if arg.get_char(at) == '=' {
            if seen == 0 {
                first = at;
                seen = 1;
            } else if seen == 1 {
                proof {
                    second = at as int;
                }
                seen = 2;
            }
        }
        at += 1;
    }
    if seen == 1 {
        proof {
            assert(sole_separator(arg@, first as int));
            let chosen = choose|at: int| sole_separator(arg@, at);
            assert(chosen == first);
            assert(arg@.subrange(first + 1, len as int) =~= arg@.skip(first + 1));
        }
        Some(String::from_str(arg.substring_char(first + 1, len)))
    } else {
        proof {
            assert forall|at: int| !sole_separator(arg@, at) by {
                if seen == 2 && sole_separator(arg@, at) {
                    assert(arg@[first as int] == '=');
                    assert(arg@[second] == '=');
                }
            }
        }
        None
    }
}

/// Reads parameters of the form `name=value` from a command line.
pub struct ArgParser {}

impl ArgParser {
    /// The value of the first of `args` that sets `param`: that begins with
    /// `param` and holds exactly one `=`.
    pub fn split(param: &String, args: &Vec<String>) -> (value: Option<String>)
        ensures
            match value {
                Some(text) => exists|i: int|
                    {
                        &&& 0 <= i < args.len()
                        &&& sets(param@, #[trigger] args[i]@)
                        &&& value_of(args[i]@) == Some(text@)
                        &&& forall|j: int| 0 <= j < i ==> !sets(param@, #[trigger] args[j]@)
                    },
                None => forall|i: int| 0 <= i < args.len() ==> !sets(param@, #[trigger] args[i]@),
            },
    {
        let mut at: usize = 0;
        while at < args.len()
            invariant
                at <= args.len(),
                forall|j: int| 0 <= j < at ==> !sets(param@, #[trigger] args[j]@),
            decreases args.len() - at,
        {
            let arg = args[at].as_str();
            if occurs_at(arg, 0, param.as_str()) {
                proof {
                    assert(param@.is_prefix_of(arg@));
                }
                let value = value_of_arg(arg);
                if value.is_some() {
                    return value;
                }
            } else {
                proof {
                    if param@.is_prefix_of(arg@) {
                        assert(arg@.subrange(0, param@.len() as int) =~= param@);
                    }
                }
            }
            at += 1;
        }
        None
    }
}

} // verus!
