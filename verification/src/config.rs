//! The faucet's config file.

use crate::keys::{hex_digit, hex_text, PublicKey};
use crate::text;
use crate::text::{
    decimal, joined, law_decimal_injective, law_lines_of_joined, lemma_decimal_digits, lines,
    one_line, texts,
};
use vstd::prelude::*;
use vstd::string::*;

verus! {

/// A line that sets `key` to a quoted text.
pub open spec fn text_line(key: Seq<char>, value: Seq<char>) -> Seq<char> {
    key + " = \""@ + value + "\""@
}

/// A line that sets `key` to a number.
pub open spec fn number_line(key: Seq<char>, value: nat) -> Seq<char> {
    key + " = "@ + decimal(value)
}

/// The line that names the one owner.
pub open spec fn owner_line(owner: Seq<u8>) -> Seq<char> {
    "owners = [\""@ + hex_text(owner) + "\"]"@
}

/// What a config file is made of.
pub struct Settings {
    pub relay: Seq<char>,
    pub secret_key: Seq<char>,
    pub owner: Seq<u8>,
    pub rpc_port: u16,
    pub rpc_user: Seq<char>,
    pub rpc_password: Seq<char>,
    pub chain_label: Seq<char>,
    pub total_cap_sats: u64,
    pub window_secs: u64,
}

/// The lines of a config file. The cap can be drawn in one go: its capacity is its
/// amount.
pub open spec fn config_lines(s: Settings) -> Seq<Seq<char>> {
    seq![
        ""@,
        "[nostr]"@,
        text_line("relay"@, s.relay),
        text_line("secret_key"@, s.secret_key),
        owner_line(s.owner),
        ""@,
        "[bitcoind]"@,
        text_line("rpc_host"@, "127.0.0.1"@),
        number_line("rpc_port"@, s.rpc_port as nat),
        text_line("rpc_user"@, s.rpc_user),
        text_line("rpc_password"@, s.rpc_password),
        text_line("wallet"@, "testwallet"@),
        text_line("chain_label"@, s.chain_label),
        ""@,
        "[faucet.total_cap]"@,
        number_line("amount"@, s.total_cap_sats as nat),
        number_line("per_secs"@, s.window_secs as nat),
        number_line("max_capacity"@, s.total_cap_sats as nat),
    ]
}

/// A config file.
pub open spec fn config_file(s: Settings) -> Seq<char> {
    joined(config_lines(s))
}

fn write_text_line(key: &str, value: &str) -> (r: String)
    ensures
        r@ == text_line(key@, value@),
{
    key.to_owned().concat(" = \"").concat(value).concat("\"")
}

fn write_number_line(key: &str, value: u64) -> (r: String)
    ensures
        r@ == number_line(key@, value as nat),
{
    let numeral = text::number(value);
    key.to_owned().concat(" = ").concat(numeral.as_str())
}

fn write_owner_line(owner: &PublicKey) -> (r: String)
    ensures
        r@ == owner_line(owner@),
{
    let owner_hex = owner.to_hex();
    "owners = [\"".to_owned().concat(owner_hex.as_str()).concat("\"]")
}

/// The faucet's config file.
///
/// It holds no policy: per-key limits are grants, and the only limit left here
/// is the one that a grant cannot express, what the faucet will pay out in total.
pub fn faucet_toml(
    relay: &str,
    secret_key: &str,
    owner: &PublicKey,
    rpc_port: u16,
    rpc_user: &str,
    rpc_password: &str,
    chain_label: &str,
    total_cap_sats: u64,
    window_secs: u64,
) -> (r: String)
    ensures
        r@ == config_file(
            (Settings {
                relay: relay@,
                secret_key: secret_key@,
                owner: owner@,
                rpc_port,
                rpc_user: rpc_user@,
                rpc_password: rpc_password@,
                chain_label: chain_label@,
                total_cap_sats,
                window_secs,
            }),
        ),
{
    let written = vec![
        "".to_owned(),
        "[nostr]".to_owned(),
        write_text_line("relay", relay),
        write_text_line("secret_key", secret_key),
        write_owner_line(owner),
        "".to_owned(),
        "[bitcoind]".to_owned(),
        write_text_line("rpc_host", "127.0.0.1"),
        write_number_line("rpc_port", rpc_port as u64),
        write_text_line("rpc_user", rpc_user),
        write_text_line("rpc_password", rpc_password),
        write_text_line("wallet", "testwallet"),
        write_text_line("chain_label", chain_label),
        "".to_owned(),
        "[faucet.total_cap]".to_owned(),
        write_number_line("amount", total_cap_sats),
        write_number_line("per_secs", window_secs),
        write_number_line("max_capacity", total_cap_sats),
    ];
    proof {
        let settings = Settings {
            relay: relay@,
            secret_key: secret_key@,
            owner: owner@,
            rpc_port,
            rpc_user: rpc_user@,
            rpc_password: rpc_password@,
            chain_label: chain_label@,
            total_cap_sats,
            window_secs,
        };
        assert(texts(written@) =~= config_lines(settings));
    }
    text::join_lines(&written)
}

/// Whether no text in a config file has a newline in it.
pub open spec fn plain(s: Settings) -> bool {
    &&& one_line(s.relay)
    &&& one_line(s.secret_key)
    &&& one_line(s.rpc_user)
    &&& one_line(s.rpc_password)
    &&& one_line(s.chain_label)
}

proof fn lemma_text_line(key: Seq<char>, value: Seq<char>)
    requires
        one_line(key),
        one_line(value),
    ensures
        one_line(text_line(key, value)),
{
    reveal_strlit(" = \"");
    reveal_strlit("\"");
    let head = key + " = \""@;
    assert(one_line(head));
    assert(one_line(head + value));
    assert(one_line(head + value + "\""@));
}

proof fn lemma_number_line(key: Seq<char>, value: nat)
    requires
        one_line(key),
    ensures
        one_line(number_line(key, value)),
{
    reveal_strlit(" = ");
    lemma_decimal_digits(value);
    assert(one_line(key + " = "@));
}

/// Hexadecimal has no newline in it.
pub(crate) proof fn lemma_hex_one_line(bytes: Seq<u8>)
    ensures
        one_line(hex_text(bytes)),
{
    let hex = hex_text(bytes);
    assert forall|i: int| 0 <= i < hex.len() implies #[trigger] hex[i] != '\n' by {
        assert(0 <= bytes[i / 2] as int / 16 < 16);
        assert(hex_digit(bytes[i / 2] as int / 16) != '\n');
        assert(hex_digit(bytes[i / 2] as int % 16) != '\n');
    }
}

proof fn lemma_owner_line(owner: Seq<u8>)
    ensures
        one_line(owner_line(owner)),
{
    reveal_strlit("owners = [\"");
    reveal_strlit("\"]");
    let hex = hex_text(owner);
    lemma_hex_one_line(owner);
    assert(one_line("owners = [\""@ + hex));
}

/// A config file has these lines and no others, whatever the texts in it, as long as none
/// has a newline.
pub proof fn law_config_lines(s: Settings)
    requires
        plain(s),
    ensures
        lines(config_file(s)) == config_lines(s).push(Seq::empty()),
{
    reveal_strlit("");
    reveal_strlit("[nostr]");
    reveal_strlit("relay");
    reveal_strlit("secret_key");
    reveal_strlit("[bitcoind]");
    reveal_strlit("rpc_host");
    reveal_strlit("127.0.0.1");
    reveal_strlit("rpc_port");
    reveal_strlit("rpc_user");
    reveal_strlit("rpc_password");
    reveal_strlit("wallet");
    reveal_strlit("testwallet");
    reveal_strlit("chain_label");
    reveal_strlit("[faucet.total_cap]");
    reveal_strlit("amount");
    reveal_strlit("per_secs");
    reveal_strlit("max_capacity");
    lemma_text_line("relay"@, s.relay);
    lemma_text_line("secret_key"@, s.secret_key);
    lemma_owner_line(s.owner);
    lemma_text_line("rpc_host"@, "127.0.0.1"@);
    lemma_number_line("rpc_port"@, s.rpc_port as nat);
    lemma_text_line("rpc_user"@, s.rpc_user);
    lemma_text_line("rpc_password"@, s.rpc_password);
    lemma_text_line("wallet"@, "testwallet"@);
    lemma_text_line("chain_label"@, s.chain_label);
    lemma_number_line("amount"@, s.total_cap_sats as nat);
    lemma_number_line("per_secs"@, s.window_secs as nat);
    lemma_number_line("max_capacity"@, s.total_cap_sats as nat);
    law_lines_of_joined(config_lines(s));
}

proof fn lemma_number_lines_differ(key: Seq<char>, a: nat, b: nat)
    requires
        a != b,
    ensures
        number_line(key, a) != number_line(key, b),
{
    if number_line(key, a) == number_line(key, b) {
        let head = key + " = "@;
        assert(number_line(key, a).skip(head.len() as int) =~= decimal(a));
        assert(number_line(key, b).skip(head.len() as int) =~= decimal(b));
        law_decimal_injective(a, b);
    }
}

/// The cap stands in two lines: config files that differ in it alone have as many lines, and
/// differ in the lines `amount` and `max_capacity`, and in no other.
pub proof fn law_cap_changes_two_lines(s: Settings, other_cap: u64)
    requires
        plain(s),
        other_cap != s.total_cap_sats,
    ensures
        ({
            let a = lines(config_file(s));
            let b = lines(config_file(Settings { total_cap_sats: other_cap, ..s }));
            &&& a.len() == b.len()
            &&& forall|i: int| 0 <= i < a.len() ==> (#[trigger] a[i] != b[i] <==> i == 15 || i == 17)
            &&& a[15] == number_line("amount"@, s.total_cap_sats as nat)
            &&& b[15] == number_line("amount"@, other_cap as nat)
            &&& a[17] == number_line("max_capacity"@, s.total_cap_sats as nat)
            &&& b[17] == number_line("max_capacity"@, other_cap as nat)
        }),
{
    law_config_lines(s);
    law_config_lines(Settings { total_cap_sats: other_cap, ..s });
    lemma_number_lines_differ("amount"@, s.total_cap_sats as nat, other_cap as nat);
    lemma_number_lines_differ("max_capacity"@, s.total_cap_sats as nat, other_cap as nat);
}

/// The window stands in one line: config files that differ in it alone have as many lines,
/// and differ in the line `per_secs`, and in no other.
pub proof fn law_window_changes_one_line(s: Settings, other_window: u64)
    requires
        plain(s),
        other_window != s.window_secs,
    ensures
        ({
            let a = lines(config_file(s));
            let b = lines(config_file(Settings { window_secs: other_window, ..s }));
            &&& a.len() == b.len()
            &&& forall|i: int| 0 <= i < a.len() ==> (#[trigger] a[i] != b[i] <==> i == 16)
            &&& a[16] == number_line("per_secs"@, s.window_secs as nat)
            &&& b[16] == number_line("per_secs"@, other_window as nat)
        }),
{
    law_config_lines(s);
    law_config_lines(Settings { window_secs: other_window, ..s });
    lemma_number_lines_differ("per_secs"@, s.window_secs as nat, other_window as nat);
}

/// A config file depends on its settings alone: where they are the same, so is the file.
pub proof fn law_config_is_settled(s: Settings, t: Settings, a: Seq<char>, b: Seq<char>)
    requires
        s == t,
        a == config_file(s),
        b == config_file(t),
    ensures
        a == b,
        lines(a) == lines(b),
{
}

/// The lines of a config file, spelled out: each setting stands in the line of its own name,
/// as it was given.
pub proof fn law_config_spelled_out(s: Settings)
    ensures
        config_lines(s) == seq![
            ""@,
            "[nostr]"@,
            "relay = \""@ + s.relay + "\""@,
            "secret_key = \""@ + s.secret_key + "\""@,
            "owners = [\""@ + hex_text(s.owner) + "\"]"@,
            ""@,
            "[bitcoind]"@,
            "rpc_host = \"127.0.0.1\""@,
            "rpc_port = "@ + decimal(s.rpc_port as nat),
            "rpc_user = \""@ + s.rpc_user + "\""@,
            "rpc_password = \""@ + s.rpc_password + "\""@,
            "wallet = \"testwallet\""@,
            "chain_label = \""@ + s.chain_label + "\""@,
            ""@,
            "[faucet.total_cap]"@,
            "amount = "@ + decimal(s.total_cap_sats as nat),
            "per_secs = "@ + decimal(s.window_secs as nat),
            "max_capacity = "@ + decimal(s.total_cap_sats as nat),
        ],
{
    reveal_strlit(" = ");
    reveal_strlit(" = \"");
    reveal_strlit("\"");
    reveal_strlit("relay = \"");
    reveal_strlit("relay");
    assert("relay = \""@ =~= "relay"@ + " = \""@);
    reveal_strlit("secret_key = \"");
    reveal_strlit("secret_key");
    assert("secret_key = \""@ =~= "secret_key"@ + " = \""@);
    reveal_strlit("rpc_host = \"127.0.0.1\"");
    reveal_strlit("rpc_host");
    reveal_strlit("127.0.0.1");
    assert("rpc_host = \"127.0.0.1\""@ =~= text_line("rpc_host"@, "127.0.0.1"@));
    reveal_strlit("rpc_port = ");
    reveal_strlit("rpc_port");
    assert("rpc_port = "@ =~= "rpc_port"@ + " = "@);
    reveal_strlit("rpc_user = \"");
    reveal_strlit("rpc_user");
    assert("rpc_user = \""@ =~= "rpc_user"@ + " = \""@);
    reveal_strlit("rpc_password = \"");
    reveal_strlit("rpc_password");
    assert("rpc_password = \""@ =~= "rpc_password"@ + " = \""@);
    reveal_strlit("wallet = \"testwallet\"");
    reveal_strlit("wallet");
    reveal_strlit("testwallet");
    assert("wallet = \"testwallet\""@ =~= text_line("wallet"@, "testwallet"@));
    reveal_strlit("chain_label = \"");
    reveal_strlit("chain_label");
    assert("chain_label = \""@ =~= "chain_label"@ + " = \""@);
    reveal_strlit("amount = ");
    reveal_strlit("amount");
    assert("amount = "@ =~= "amount"@ + " = "@);
    reveal_strlit("per_secs = ");
    reveal_strlit("per_secs");
    assert("per_secs = "@ =~= "per_secs"@ + " = "@);
    reveal_strlit("max_capacity = ");
    reveal_strlit("max_capacity");
    assert("max_capacity = "@ =~= "max_capacity"@ + " = "@);
    assert(config_lines(s) =~= seq![
            ""@,
            "[nostr]"@,
            "relay = \""@ + s.relay + "\""@,
            "secret_key = \""@ + s.secret_key + "\""@,
            "owners = [\""@ + hex_text(s.owner) + "\"]"@,
            ""@,
            "[bitcoind]"@,
            "rpc_host = \"127.0.0.1\""@,
            "rpc_port = "@ + decimal(s.rpc_port as nat),
            "rpc_user = \""@ + s.rpc_user + "\""@,
            "rpc_password = \""@ + s.rpc_password + "\""@,
            "wallet = \"testwallet\""@,
            "chain_label = \""@ + s.chain_label + "\""@,
            ""@,
            "[faucet.total_cap]"@,
            "amount = "@ + decimal(s.total_cap_sats as nat),
            "per_secs = "@ + decimal(s.window_secs as nat),
            "max_capacity = "@ + decimal(s.total_cap_sats as nat),
    ]);
}

/// What is written is that file: of the texts and numbers that it was given, each in its line,
/// where none of the texts has a newline.
pub proof fn law_config_is_what_was_given(
    relay: &str,
    secret_key: &str,
    owner: &PublicKey,
    rpc_port: u16,
    rpc_user: &str,
    rpc_password: &str,
    chain_label: &str,
    total_cap_sats: u64,
    window_secs: u64,
    r: String,
)
    requires
        call_ensures(
            faucet_toml,
            (
                relay,
                secret_key,
                owner,
                rpc_port,
                rpc_user,
                rpc_password,
                chain_label,
                total_cap_sats,
                window_secs,
            ),
            r,
        ),
        one_line(relay@),
        one_line(secret_key@),
        one_line(rpc_user@),
        one_line(rpc_password@),
        one_line(chain_label@),
    ensures
        lines(r@) == seq![
            ""@,
            "[nostr]"@,
            "relay = \""@ + relay@ + "\""@,
            "secret_key = \""@ + secret_key@ + "\""@,
            "owners = [\""@ + hex_text(owner@) + "\"]"@,
            ""@,
            "[bitcoind]"@,
            "rpc_host = \"127.0.0.1\""@,
            "rpc_port = "@ + decimal(rpc_port as nat),
            "rpc_user = \""@ + rpc_user@ + "\""@,
            "rpc_password = \""@ + rpc_password@ + "\""@,
            "wallet = \"testwallet\""@,
            "chain_label = \""@ + chain_label@ + "\""@,
            ""@,
            "[faucet.total_cap]"@,
            "amount = "@ + decimal(total_cap_sats as nat),
            "per_secs = "@ + decimal(window_secs as nat),
            "max_capacity = "@ + decimal(total_cap_sats as nat),
            Seq::<char>::empty(),
        ],
{
    let s = Settings {
        relay: relay@,
        secret_key: secret_key@,
        owner: owner@,
        rpc_port,
        rpc_user: rpc_user@,
        rpc_password: rpc_password@,
        chain_label: chain_label@,
        total_cap_sats,
        window_secs,
    };
    law_config_lines(s);
    law_config_spelled_out(s);
    assert(lines(r@) =~= seq![
            ""@,
            "[nostr]"@,
            "relay = \""@ + relay@ + "\""@,
            "secret_key = \""@ + secret_key@ + "\""@,
            "owners = [\""@ + hex_text(owner@) + "\"]"@,
            ""@,
            "[bitcoind]"@,
            "rpc_host = \"127.0.0.1\""@,
            "rpc_port = "@ + decimal(rpc_port as nat),
            "rpc_user = \""@ + rpc_user@ + "\""@,
            "rpc_password = \""@ + rpc_password@ + "\""@,
            "wallet = \"testwallet\""@,
            "chain_label = \""@ + chain_label@ + "\""@,
            ""@,
            "[faucet.total_cap]"@,
            "amount = "@ + decimal(total_cap_sats as nat),
            "per_secs = "@ + decimal(window_secs as nat),
            "max_capacity = "@ + decimal(total_cap_sats as nat),
        Seq::<char>::empty(),
    ]);
}

}
