use nostr_faucet_e2e::faucet_toml;
use nostr_faucet_e2e::keys::PublicKey;

#[test]
fn the_config_file_reads_as_it_should() {
    let owner = PublicKey { bytes: [0xab; 32] };
    let text = faucet_toml(
        "ws://127.0.0.1:7000",
        "00ff",
        &owner,
        18443,
        "user",
        "pass",
        "limits.regtest",
        200_000_000,
        120,
    );
    let expected = format!(
        r#"
[nostr]
relay = "ws://127.0.0.1:7000"
secret_key = "00ff"
owners = ["{}"]

[bitcoind]
rpc_host = "127.0.0.1"
rpc_port = 18443
rpc_user = "user"
rpc_password = "pass"
wallet = "testwallet"
chain_label = "limits.regtest"

[faucet.total_cap]
amount = 200000000
per_secs = 120
max_capacity = 200000000
"#,
        "ab".repeat(32)
    );
    assert_eq!(text, expected);
}

#[test]
fn the_extremes_of_the_numbers_are_written() {
    let owner = PublicKey { bytes: [0; 32] };
    let text = faucet_toml("", "", &owner, 0, "", "", "", u64::MAX, 0);
    assert!(text.contains("\nrpc_port = 0\n"));
    assert!(text.contains("\namount = 18446744073709551615\n"));
    assert!(text.contains("\nper_secs = 0\n"));
    assert!(text.contains("\nrelay = \"\"\n"));
}

/// The lines in which two config files differ, by their index.
fn differing(a: &str, b: &str) -> Vec<(usize, String, String)> {
    assert_eq!(a.lines().count(), b.lines().count());
    a.lines()
        .zip(b.lines())
        .enumerate()
        .filter(|(_, (x, y))| x != y)
        .map(|(i, (x, y))| (i, x.to_string(), y.to_string()))
        .collect()
}

#[test]
fn the_cap_stands_in_two_lines_and_the_window_in_one() {
    let owner = PublicKey { bytes: [7; 32] };
    let config = |cap: u64, window: u64| {
        faucet_toml("ws://relay", "00ff", &owner, 1, "user", "pass", "label", cap, window)
    };
    let line = |i: usize, x: &str, y: &str| (i, x.to_string(), y.to_string());
    assert_eq!(
        differing(&config(5, 30), &config(6, 30)),
        vec![
            line(15, "amount = 5", "amount = 6"),
            line(17, "max_capacity = 5", "max_capacity = 6"),
        ]
    );
    assert_eq!(
        differing(&config(5, 30), &config(5, 31)),
        vec![line(16, "per_secs = 30", "per_secs = 31")]
    );
    assert_eq!(config(5, 30), config(5, 30));
}
