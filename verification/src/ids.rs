//! Peer identifiers and the names derived from them.
//!
//! An identifier is a UUID, held as its 128-bit value.
use vstd::prelude::*;

verus! {

/// Whether `id` is a random UUID: version 4, RFC 9562 variant.
pub open spec fn is_random_id(id: u128) -> bool {
    &&& (id as int / vstd::arithmetic::power::pow(2, 76)) % 16 == 4
    &&& (id as int / vstd::arithmetic::power::pow(2, 62)) % 4 == 2
}

/// The lowercase hexadecimal digit of value `d`.
pub open spec fn hex_digit(d: int) -> char {
    if d == 0 {
        '0'
    } else if d == 1 {
        '1'
    } else if d == 2 {
        '2'
    } else if d == 3 {
        '3'
    } else if d == 4 {
        '4'
    } else if d == 5 {
        '5'
    } else if d == 6 {
        '6'
    } else if d == 7 {
        '7'
    } else if d == 8 {
        '8'
    } else if d == 9 {
        '9'
    } else if d == 10 {
        'a'
    } else if d == 11 {
        'b'
    } else if d == 12 {
        'c'
    } else if d == 13 {
        'd'
    } else if d == 14 {
        'e'
    } else {
        'f'
    }
}

/// The value of the `k`-th of the 32 hexadecimal digits of `id`, the most significant first.
pub open spec fn id_digit(id: u128, k: int) -> int {
    (id as int / vstd::arithmetic::power::pow(16, (31 - k) as nat)) % 16
}

/// Which of the 32 digits stands at position `i` of the hyphenated form.
pub open spec fn digit_at(i: int) -> int {
    if i < 8 {
        i
    } else if i < 13 {
        i - 1
    } else if i < 18 {
        i - 2
    } else if i < 23 {
        i - 3
    } else {
        i - 4
    }
}

/// The hyphenated form of `id`: 32 digits in groups of 8, 4, 4, 4 and 12.
pub open spec fn hyphenated(id: u128) -> Seq<char> {
    Seq::new(
        36,
        |i: int|
            if i == 8 || i == 13 || i == 18 || i == 23 {
                '-'
            } else {
                hex_digit(id_digit(id, digit_at(i)))
            },
    )
}

/// The statistics file of the peer `id`.
pub open spec fn stats_file(id: u128) -> Seq<char> {
    "stats-"@ + hyphenated(id) + ".csv"@
}

/// The file that a received stream is saved to.
pub open spec fn save_file(id: u128) -> Seq<char> {
    "save-video-"@ + hyphenated(id) + ".h264"@
}

/// The row of a statistics file for one receiver report.
pub open spec fn stats_line(reporter: u128, delay_ms: Seq<char>) -> Seq<char> {
    hyphenated(reporter) + ","@ + delay_ms + "\n"@
}

/// Calls `uuid::Uuid::new_v4`.
///
/// Claims that every outcome carries the version number 4 and the RFC 9562 variant. Of the
/// other 122 bits nothing is said: they are random. The call fails where the operating system has
/// no random bytes to give.
#[verifier::external_body]
pub(crate) fn random_id() -> (id: u128)
    ensures
        is_random_id(id),
{
    uuid::Uuid::new_v4().as_u128()
}

/// Calls `to_string` of a `uuid::Uuid`.
///
/// Claims that a UUID prints in its lowercase hyphenated form.
#[verifier::external_body]
fn uuid_to_string(id: u128) -> (text: String)
    ensures
        text@ == hyphenated(id),
{
    uuid::Uuid::from_u128(id).to_string()
}

/// The text of an identifier.
pub fn id_text(id: u128) -> (text: String)
    ensures
        text@ == hyphenated(id),
{
    uuid_to_string(id)
}

/// The name of the statistics file of the peer `id`.
pub fn stats_file_name(id: u128) -> (name: String)
    ensures
        name@ == stats_file(id),
{
    "stats-".to_owned().concat(id_text(id).as_str()).concat(".csv")
}

/// The name of the file that a stream is saved to, for the given number.
pub fn save_file_name(id: u128) -> (name: String)
    ensures
        name@ == save_file(id),
{
    "save-video-".to_owned().concat(id_text(id).as_str()).concat(".h264")
}

/// A fresh name for the file that a stream is saved to.
pub fn default_save_file_name() -> (name: String)
    ensures
        exists|id: u128| is_random_id(id) && name@ == #[trigger] save_file(id),
{
    let id: u128 = random_id();
    save_file_name(id)
}

/// The WebSocket URL of the host `host`.
pub open spec fn socket_url(host: Seq<char>) -> Seq<char> {
    "ws://"@ + host
}

/// The address of the signaling server at `host`, as a WebSocket URL.
pub fn server_url(host: &str) -> (url: String)
    ensures
        url@ == "ws://"@ + host@,
        url@ == socket_url(host@),
{
    "ws://".to_owned().concat(host)
}

/// The row of a peer's statistics file for one receiver report: the peer that sent the report,
/// a comma, the delay in milliseconds.
pub fn stats_row(reporter: u128, delay_ms: &str) -> (row: String)
    ensures
        row@ == stats_line(reporter, delay_ms@),
{
    id_text(reporter).concat(",").concat(delay_ms).concat("\n")
}

proof fn lemma_hex_digit_injective(a: int, b: int)
    requires
        0 <= a < 16,
        0 <= b < 16,
        hex_digit(a) == hex_digit(b),
    ensures
        a == b,
{
}

proof fn lemma_low_digits(a: u128, b: u128, n: nat)
    requires
        n <= 32,
        forall|k: int| 0 <= k < 32 ==> id_digit(a, k) == id_digit(b, k),
    ensures
        a as int % vstd::arithmetic::power::pow(16, n) == b as int
            % vstd::arithmetic::power::pow(16, n),
    decreases n,
{
    if n == 0 {
        vstd::arithmetic::power::lemma_pow0(16);
    } else {
        let m = (n - 1) as nat;
        let base = vstd::arithmetic::power::pow(16, m);
        lemma_low_digits(a, b, m);
        vstd::arithmetic::power::lemma_pow_positive(16, m);
        reveal(vstd::arithmetic::power::pow);
        assert(vstd::arithmetic::power::pow(16, n) == 16 * base);
        assert(base * 16 == 16 * base) by (nonlinear_arith);
        vstd::arithmetic::div_mod::lemma_mod_breakdown(a as int, base, 16);
        vstd::arithmetic::div_mod::lemma_mod_breakdown(b as int, base, 16);
        assert(id_digit(a, 32 - n) == id_digit(b, 32 - n));
    }
}

/// Two identifiers with the same text are the same.
pub proof fn law_text_tells_ids_apart(a: u128, b: u128)
    requires
        hyphenated(a) == hyphenated(b),
    ensures
        a == b,
{
    assert forall|k: int| 0 <= k < 32 implies id_digit(a, k) == id_digit(b, k) by {
        let i = if k < 8 {
            k
        } else if k < 12 {
            k + 1
        } else if k < 16 {
            k + 2
        } else if k < 20 {
            k + 3
        } else {
            k + 4
        };
        assert(digit_at(i) == k);
        assert(hyphenated(a)[i] == hex_digit(id_digit(a, digit_at(i))));
        assert(hyphenated(b)[i] == hex_digit(id_digit(b, digit_at(i))));
        lemma_hex_digit_injective(id_digit(a, k), id_digit(b, k));
    }
    lemma_low_digits(a, b, 32);
    assert(vstd::arithmetic::power::pow(16, 32) == 0x1_0000_0000_0000_0000_0000_0000_0000_0000) by {
        reveal_with_fuel(vstd::arithmetic::power::pow, 33);
    }
}

/// Each peer has a statistics file of its own.
pub proof fn law_each_peer_has_its_own_stats_file(a: u128, b: u128)
    requires
        stats_file(a) == stats_file(b),
    ensures
        a == b,
{
    let head = "stats-"@.len() as int;
    assert(hyphenated(a) =~= stats_file(a).subrange(head, head + 36));
    assert(hyphenated(b) =~= stats_file(b).subrange(head, head + 36));
    law_text_tells_ids_apart(a, b);
}

/// A row of a statistics file tells the peer and the delay that it was written for.
pub proof fn law_row_tells_peer_and_delay(a: u128, delay_a: Seq<char>, b: u128, delay_b: Seq<char>)
    requires
        stats_line(a, delay_a) == stats_line(b, delay_b),
    ensures
        a == b,
        delay_a == delay_b,
{
    let row = stats_line(a, delay_a);
    let head = 36 + ","@.len() as int;
    let tail = row.len() - "\n"@.len() as int;
    assert(hyphenated(a) =~= row.subrange(0, 36));
    assert(hyphenated(b) =~= row.subrange(0, 36));
    law_text_tells_ids_apart(a, b);
    assert(delay_a =~= row.subrange(head, tail));
    assert(delay_b =~= row.subrange(head, tail));
}

/// The digits of a hyphenated text, without the hyphens.
pub open spec fn without_hyphens(text: Seq<char>) -> Seq<char> {
    text.subrange(0, 8) + text.subrange(9, 13) + text.subrange(14, 18) + text.subrange(19, 23)
        + text.subrange(24, 36)
}

#[verifier::spinoff_prover]
proof fn lemma_reads_prefix(id: u128, n: nat)
    requires
        n <= 32,
    ensures
        crate::text::read_number(without_hyphens(hyphenated(id)).take(n as int), 16) == id as int
            / vstd::arithmetic::power::pow(16, (32 - n) as nat),
    decreases n,
{
    let digits = without_hyphens(hyphenated(id));
    if n == 0 {
        assert(vstd::arithmetic::power::pow(16, 32)
            == 0x1_0000_0000_0000_0000_0000_0000_0000_0000) by {
            reveal_with_fuel(vstd::arithmetic::power::pow, 33);
        }
        assert(digits.take(0).len() == 0);
        assert(id as int / vstd::arithmetic::power::pow(16, 32) == 0);
    } else {
        let k = n - 1;
        let base = vstd::arithmetic::power::pow(16, (32 - n) as nat);
        let rest = id as int / base;
        let read = digits.take(n as int);
        lemma_reads_prefix(id, k as nat);
        assert(read.drop_last() =~= digits.take(k));
        assert(read.last() == digits[k]);
        assert(digits[k] == hex_digit(id_digit(id, k)));
        assert(id_digit(id, k) == rest % 16);
        assert(crate::text::digit_value(hex_digit(rest % 16)) == rest % 16);
        vstd::arithmetic::power::lemma_pow_positive(16, (32 - n) as nat);
        assert(vstd::arithmetic::power::pow(16, (32 - k) as nat) == base * 16) by {
            reveal(vstd::arithmetic::power::pow);
            assert(base * 16 == 16 * base) by (nonlinear_arith);
        }
        vstd::arithmetic::div_mod::lemma_div_denominator(id as int, base, 16);
        assert(crate::text::read_number(read.drop_last(), 16) == rest / 16);
        assert(crate::text::read_number(read, 16) == (rest / 16) * 16 + rest % 16);
        assert(crate::text::read_number(read, 16) == rest);
    }
}

/// The text of an identifier spells it: 32 lowercase hexadecimal digits in groups of 8, 4, 4, 4 and
/// 12, which read back as the number that the identifier is.
pub proof fn law_text_spells_the_id(id: u128)
    ensures
        hyphenated(id).len() == 36,
        hyphenated(id)[8] == '-',
        hyphenated(id)[13] == '-',
        hyphenated(id)[18] == '-',
        hyphenated(id)[23] == '-',
        forall|i: int|
            0 <= i < 36 && i != 8 && i != 13 && i != 18 && i != 23 ==> {
                ||| '0' as int <= #[trigger] hyphenated(id)[i] as int <= '9' as int
                ||| 'a' as int <= hyphenated(id)[i] as int <= 'f' as int
            },
        crate::text::read_number(
            hyphenated(id).subrange(0, 8) + hyphenated(id).subrange(9, 13) + hyphenated(
                id,
            ).subrange(14, 18) + hyphenated(id).subrange(19, 23) + hyphenated(id).subrange(24, 36),
            16,
        ) == id,
{
    let digits = without_hyphens(hyphenated(id));
    lemma_reads_prefix(id, 32);
    vstd::arithmetic::power::lemma_pow0(16);
    assert(digits.take(32) =~= digits);
}

/// A random identifier is one whose text shows it: the version digit is 4, and the digit of the
/// variant is one of 8, 9, a and b.
#[verifier::spinoff_prover]
pub proof fn law_random_id_shows_its_version(id: u128)
    ensures
        is_random_id(id) <==> hyphenated(id)[14] == '4' && (hyphenated(id)[19] == '8'
            || hyphenated(id)[19] == '9' || hyphenated(id)[19] == 'a' || hyphenated(id)[19] == 'b'),
{
    reveal_with_fuel(vstd::arithmetic::power::pow, 77);
    assert(vstd::arithmetic::power::pow(16, 19) == vstd::arithmetic::power::pow(2, 76));
    assert(vstd::arithmetic::power::pow(16, 15) == 0x1000_0000_0000_0000);
    assert(vstd::arithmetic::power::pow(2, 62) == 4 * 0x1000_0000_0000_0000);
    let high = id as int / 0x1000_0000_0000_0000;
    vstd::arithmetic::div_mod::lemma_div_denominator(id as int, 0x1000_0000_0000_0000, 4);
    assert(hyphenated(id)[14] == hex_digit(id_digit(id, 12)));
    assert(hyphenated(id)[19] == hex_digit(high % 16));
    assert((high / 4) % 4 == 2 <==> 8 <= high % 16 < 12);
}

/// A row of a statistics file is the text of the peer, a comma, the delay as it is, and a line
/// feed.
pub proof fn law_row_holds_peer_comma_delay(peer: u128, delay: Seq<char>)
    ensures
        stats_line(peer, delay).len() == 38 + delay.len(),
        stats_line(peer, delay).subrange(0, 36) == hyphenated(peer),
        stats_line(peer, delay)[36] == ',',
        stats_line(peer, delay).subrange(37, stats_line(peer, delay).len() - 1) == delay,
        stats_line(peer, delay).last() == '\n',
{
    reveal_strlit(",");
    reveal_strlit("\n");
    let row = stats_line(peer, delay);
    assert(row.subrange(0, 36) =~= hyphenated(peer));
    assert(row.subrange(37, row.len() - 1) =~= delay);
}

/// The name of a statistics file is the text of the peer between `stats-` and `.csv`.
pub proof fn law_stats_file_is_named_after_the_peer(id: u128)
    ensures
        stats_file(id).len() == 46,
        stats_file(id).subrange(0, 6) == seq!['s', 't', 'a', 't', 's', '-'],
        stats_file(id).subrange(6, 42) == hyphenated(id),
        stats_file(id).subrange(42, 46) == seq!['.', 'c', 's', 'v'],
{
    reveal_strlit("stats-");
    reveal_strlit(".csv");
    let name = stats_file(id);
    assert(name.subrange(0, 6) =~= seq!['s', 't', 'a', 't', 's', '-']);
    assert(name.subrange(6, 42) =~= hyphenated(id));
    assert(name.subrange(42, 46) =~= seq!['.', 'c', 's', 'v']);
}

/// The name of a saved stream is the text of its number between `save-video-` and `.h264`.
pub proof fn law_save_file_is_named_after_its_number(id: u128)
    ensures
        save_file(id).len() == 52,
        save_file(id).subrange(0, 11) == seq!['s', 'a', 'v', 'e', '-', 'v', 'i', 'd', 'e', 'o', '-'],
        save_file(id).subrange(11, 47) == hyphenated(id),
        save_file(id).subrange(47, 52) == seq!['.', 'h', '2', '6', '4'],
{
    reveal_strlit("save-video-");
    reveal_strlit(".h264");
    let name = save_file(id);
    assert(name.subrange(0, 11) =~= seq![
        's',
        'a',
        'v',
        'e',
        '-',
        'v',
        'i',
        'd',
        'e',
        'o',
        '-',
    ]);
    assert(name.subrange(11, 47) =~= hyphenated(id));
    assert(name.subrange(47, 52) =~= seq!['.', 'h', '2', '6', '4']);
}

/// The URL of a host is the host as it is, after the scheme of WebSockets.
pub proof fn law_url_is_scheme_and_host(host: Seq<char>)
    ensures
        socket_url(host).len() == 5 + host.len(),
        socket_url(host).take(5) == seq!['w', 's', ':', '/', '/'],
        socket_url(host).skip(5) == host,
{
    reveal_strlit("ws://");
    assert(socket_url(host).take(5) =~= seq!['w', 's', ':', '/', '/']);
    assert(socket_url(host).skip(5) =~= host);
}

} // verus!
