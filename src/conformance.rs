use vstd::prelude::*;

use crate::codec::{SEED_LEN, SIGNATURE_LEN, VERIFYING_KEY_LEN};
use crate::hex_text::{decode_hex, decoded_hex, HexError};
use crate::mldsa::{
    accepts, expanded_secret_key_of, keygen_from_seed, public_key_of, verify_bytes,
};

verus! {

/// Which field of a test vector failed to decode.
#[derive(Clone, Copy, Debug, PartialEq, Eq, Structural)]
pub enum VectorField {
    Seed,
    PublicKey,
    SecretKey,
    Message,
    Context,
    Signature,
}

/// Why a conformance run could not be carried out. Vectors are trusted input,
/// so each of these aborts the run.
#[derive(Clone, Copy, Debug, PartialEq, Eq, Structural)]
pub enum HarnessError {
    /// No test group matches the supported profile: a run would test nothing.
    NoMatchingGroups,
    /// A hex field of a case is not hex text.
    BadHex { tc_id: u32, field: VectorField },
    /// A key-generation seed does not hold 32 bytes.
    BadSeedLength { tc_id: u32 },
}

/// A key-generation case; hex fields hold the bytes of the hex text.
#[derive(Debug)]
pub struct KeyGenCase {
    pub tc_id: u32,
    pub seed_hex: Vec<u8>,
    pub pk_hex: Vec<u8>,
    pub sk_hex: Vec<u8>,
}

/// A group of key-generation cases under one parameter set.
#[derive(Debug)]
pub struct KeyGenGroup {
    pub parameter_set: String,
    pub tests: Vec<KeyGenCase>,
}

/// A signature-verification case; hex fields hold the bytes of the hex text,
/// and an absent message or context stands for the empty string.
#[derive(Debug)]
pub struct SigVerCase {
    pub tc_id: u32,
    pub test_passed: bool,
    pub pk_hex: Vec<u8>,
    pub message_hex: Option<Vec<u8>>,
    pub context_hex: Option<Vec<u8>>,
    pub signature_hex: Vec<u8>,
    pub reason: Option<String>,
}

/// A group of signature-verification cases.
#[derive(Debug)]
pub struct SigVerGroup {
    pub tg_id: u32,
    pub parameter_set: String,
    pub signature_interface: String,
    pub pre_hash: String,
    pub tests: Vec<SigVerCase>,
}

/// What replaying one key-generation case found.
#[derive(Clone, Copy, Debug, PartialEq, Eq, Structural)]
pub struct KeyGenOutcome {
    pub tc_id: u32,
    pub pk_match: bool,
    pub sk_match: bool,
}

/// What replaying one signature-verification case found.
#[derive(Clone, Copy, Debug, PartialEq, Eq, Structural)]
pub struct SigVerOutcome {
    pub tg_id: u32,
    pub tc_id: u32,
    pub expected: bool,
    pub actual: bool,
}

impl KeyGenOutcome {
    pub open spec fn spec_is_mismatch(&self) -> bool {
        !self.pk_match || !self.sk_match
    }

    /// Whether either derived key differs from the expected one.
    pub fn is_mismatch(&self) -> (r: bool)
        ensures
            r == self.spec_is_mismatch(),
    {
        !self.pk_match || !self.sk_match
    }
}

impl SigVerOutcome {
    pub open spec fn spec_is_mismatch(&self) -> bool {
        self.expected != self.actual
    }

    /// Whether the verification result differs from the expected one.
    pub fn is_mismatch(&self) -> (r: bool)
        ensures
            r == self.spec_is_mismatch(),
    {
        self.expected != self.actual
    }
}

/// Whether two labels are the same text.
pub fn labels_equal(a: &str, b: &str) -> (r: bool)
    ensures
        r == (a@ == b@),
{
    let n = a.unicode_len();
    if n != b.unicode_len() {
        return false;
    }
    let mut i: usize = 0;
    while i < n
        invariant
            n == a@.len(),
            n == b@.len(),
            i <= n,
            a@.subrange(0, i as int) == b@.subrange(0, i as int),
        decreases n - i,
    {
        if a.get_char(i) != b.get_char(i) {
            assert(a@[i as int] != b@[i as int]);
            return false;
        }
        assert(a@.subrange(0, i + 1) =~= a@.subrange(0, i as int).push(a@[i as int]));
        assert(b@.subrange(0, i + 1) =~= b@.subrange(0, i as int).push(b@[i as int]));
        i = i + 1;
    }
    assert(a@ =~= a@.subrange(0, n as int));
    assert(b@ =~= b@.subrange(0, n as int));
    true
}

/// Whether two byte strings are equal.
pub fn bytes_equal(a: &[u8], b: &[u8]) -> (r: bool)
    ensures
        r == (a@ == b@),
{
    if a.len() != b.len() {
        return false;
    }
    let mut i: usize = 0;
    while i < a.len()
        invariant
            a@.len() == b@.len(),
            i <= a@.len(),
            forall|k: int| 0 <= k < i ==> a@[k] == b@[k],
        decreases a@.len() - i,
    {
        if a[i] != b[i] {
            return false;
        }
        i = i + 1;
    }
    assert(a@ =~= b@);
    true
}

/// The only parameter set this system supports.
pub open spec fn supported_parameter_set() -> Seq<char> {
    "ML-DSA-65"@
}

/// Key-generation groups of the supported parameter set are replayed.
pub open spec fn keygen_group_applies(g: KeyGenGroup) -> bool {
    g.parameter_set@ == supported_parameter_set()
}

/// Verification groups of the supported parameter set, for the external
/// signature interface in pure (not pre-hashed) mode, are replayed.
pub open spec fn sigver_group_applies(g: SigVerGroup) -> bool {
    g.parameter_set@ == supported_parameter_set() && g.signature_interface@ == "external"@
        && g.pre_hash@ == "pure"@
}

/// Whether a key-generation group is replayed.
pub fn keygen_group_matches(g: &KeyGenGroup) -> (r: bool)
    ensures
        r == keygen_group_applies(*g),
{
    proof {
        reveal_strlit("ML-DSA-65");
    }
    labels_equal(g.parameter_set.as_str(), "ML-DSA-65")
}

/// Whether a verification group is replayed.
pub fn sigver_group_matches(g: &SigVerGroup) -> (r: bool)
    ensures
        r == sigver_group_applies(*g),
{
    proof {
        reveal_strlit("ML-DSA-65");
        reveal_strlit("external");
        reveal_strlit("pure");
    }
    labels_equal(g.parameter_set.as_str(), "ML-DSA-65") && labels_equal(
        g.signature_interface.as_str(),
        "external",
    ) && labels_equal(g.pre_hash.as_str(), "pure")
}

/// What replaying a key-generation case gives: the seed must be 32 bytes, and
/// the keys derived from it are compared with the expected encodings.
pub open spec fn keygen_case_result(c: KeyGenCase) -> Result<KeyGenOutcome, HarnessError> {
    match decoded_hex(c.seed_hex@) {
        Err(_) => Err(HarnessError::BadHex { tc_id: c.tc_id, field: VectorField::Seed }),
        Ok(seed) => if seed.len() != SEED_LEN {
            Err(HarnessError::BadSeedLength { tc_id: c.tc_id })
        } else {
            match decoded_hex(c.pk_hex@) {
                Err(_) => Err(HarnessError::BadHex { tc_id: c.tc_id, field: VectorField::PublicKey }),
                Ok(pk) => match decoded_hex(c.sk_hex@) {
                    Err(_) => Err(
                        HarnessError::BadHex { tc_id: c.tc_id, field: VectorField::SecretKey },
                    ),
                    Ok(sk) => Ok(
                        KeyGenOutcome {
                            tc_id: c.tc_id,
                            pk_match: public_key_of(seed) == pk,
                            sk_match: expanded_secret_key_of(seed) == sk,
                        },
                    ),
                },
            }
        },
    }
}

/// What an optional hex field decodes to; an absent field is empty.
pub open spec fn decoded_optional_hex(t: Option<Vec<u8>>) -> Result<Seq<u8>, HexError> {
    match t {
        Some(v) => decoded_hex(v@),
        None => Ok(Seq::empty()),
    }
}

/// What replaying a verification case gives. A key or signature of the wrong
/// length is not accepted: it yields `false`, never an error.
pub open spec fn sigver_case_result(tg_id: u32, c: SigVerCase) -> Result<SigVerOutcome, HarnessError> {
    match decoded_hex(c.pk_hex@) {
        Err(_) => Err(HarnessError::BadHex { tc_id: c.tc_id, field: VectorField::PublicKey }),
        Ok(pk) => match decoded_optional_hex(c.message_hex) {
            Err(_) => Err(HarnessError::BadHex { tc_id: c.tc_id, field: VectorField::Message }),
            Ok(msg) => match decoded_optional_hex(c.context_hex) {
                Err(_) => Err(HarnessError::BadHex { tc_id: c.tc_id, field: VectorField::Context }),
                Ok(ctx) => match decoded_hex(c.signature_hex@) {
                    Err(_) => Err(
                        HarnessError::BadHex { tc_id: c.tc_id, field: VectorField::Signature },
                    ),
                    Ok(sig) => Ok(
                        SigVerOutcome {
                            tg_id,
                            tc_id: c.tc_id,
                            expected: c.test_passed,
                            actual: pk.len() == VERIFYING_KEY_LEN && sig.len() == SIGNATURE_LEN
                                && accepts(pk, msg, ctx, sig),
                        },
                    ),
                },
            },
        },
    }
}

/// Replays one key-generation case.
pub fn check_keygen_case(c: &KeyGenCase) -> (r: Result<KeyGenOutcome, HarnessError>)
    ensures
        r == keygen_case_result(*c),
{
    let seed_bytes = match decode_hex(c.seed_hex.as_slice()) {
        Ok(v) => v,
        Err(_) => return Err(HarnessError::BadHex { tc_id: c.tc_id, field: VectorField::Seed }),
    };
    let seed = match crate::codec::decode_seed(seed_bytes.as_slice()) {
        Ok(s) => s,
        Err(_) => return Err(HarnessError::BadSeedLength { tc_id: c.tc_id }),
    };
    let expected_pk = match decode_hex(c.pk_hex.as_slice()) {
        Ok(v) => v,
        Err(_) => return Err(
            HarnessError::BadHex { tc_id: c.tc_id, field: VectorField::PublicKey },
        ),
    };
    let expected_sk = match decode_hex(c.sk_hex.as_slice()) {
        Ok(v) => v,
        Err(_) => return Err(
            HarnessError::BadHex { tc_id: c.tc_id, field: VectorField::SecretKey },
        ),
    };
    let kp = keygen_from_seed(&seed);
    let pk_match = bytes_equal(kp.verifying_key.as_bytes(), expected_pk.as_slice());
    let sk_match = bytes_equal(kp.expanded_secret_key.as_slice(), expected_sk.as_slice());
    Ok(KeyGenOutcome { tc_id: c.tc_id, pk_match, sk_match })
}

/// Decodes an optional hex field; an absent field is empty.
fn decode_optional_hex(t: &Option<Vec<u8>>) -> (r: Result<Vec<u8>, HexError>)
    ensures
        crate::hex_text::bytes_result(r) == decoded_optional_hex(*t),
{
    match t {
        Some(v) => decode_hex(v.as_slice()),
        None => {
            let empty: Vec<u8> = Vec::new();
            assert(empty@ =~= Seq::<u8>::empty());
            Ok(empty)
        },
    }
}

/// Replays one verification case of group `tg_id`; malformed key or signature
/// lengths give a `false` result.
pub fn check_sigver_case(tg_id: u32, c: &SigVerCase) -> (r: Result<SigVerOutcome, HarnessError>)
    ensures
        r == sigver_case_result(tg_id, *c),
{
    let pk = match decode_hex(c.pk_hex.as_slice()) {
        Ok(v) => v,
        Err(_) => return Err(
            HarnessError::BadHex { tc_id: c.tc_id, field: VectorField::PublicKey },
        ),
    };
    let msg = match decode_optional_hex(&c.message_hex) {
        Ok(v) => v,
        Err(_) => return Err(HarnessError::BadHex { tc_id: c.tc_id, field: VectorField::Message }),
    };
    let ctx = match decode_optional_hex(&c.context_hex) {
        Ok(v) => v,
        Err(_) => return Err(HarnessError::BadHex { tc_id: c.tc_id, field: VectorField::Context }),
    };
    let sig = match decode_hex(c.signature_hex.as_slice()) {
        Ok(v) => v,
        Err(_) => return Err(
            HarnessError::BadHex { tc_id: c.tc_id, field: VectorField::Signature },
        ),
    };
    let actual = verify_bytes(pk.as_slice(), msg.as_slice(), ctx.as_slice(), sig.as_slice());
    Ok(SigVerOutcome { tg_id, tc_id: c.tc_id, expected: c.test_passed, actual })
}

/// The first error among case results, if any.
pub open spec fn first_error<O>(rs: Seq<Result<O, HarnessError>>) -> Option<HarnessError>
    decreases rs.len(),
{
    if rs.len() == 0 {
        None
    } else {
        match first_error(rs.drop_last()) {
            Some(e) => Some(e),
            None => match rs.last() {
                Err(e) => Some(e),
                Ok(_) => None,
            },
        }
    }
}

/// The outcomes held by case results.
pub open spec fn ok_values<O>(rs: Seq<Result<O, HarnessError>>) -> Seq<O> {
    rs.map_values(|r: Result<O, HarnessError>| r->Ok_0)
}

/// A run's result: refused when no group applies, else the first case error,
/// else the outcome of every replayed case in order.
pub open spec fn run_result<O>(any_applies: bool, rs: Seq<Result<O, HarnessError>>) -> Result<
    Seq<O>,
    HarnessError,
> {
    if !any_applies {
        Err(HarnessError::NoMatchingGroups)
    } else {
        match first_error(rs) {
            Some(e) => Err(e),
            None => Ok(ok_values(rs)),
        }
    }
}

/// The results of the cases of the key-generation groups that apply, in order.
pub open spec fn keygen_results(groups: Seq<KeyGenGroup>) -> Seq<Result<KeyGenOutcome, HarnessError>>
    decreases groups.len(),
{
    if groups.len() == 0 {
        Seq::empty()
    } else {
        let prev = keygen_results(groups.drop_last());
        let g = groups.last();
        if keygen_group_applies(g) {
            prev + g.tests@.map_values(|c: KeyGenCase| keygen_case_result(c))
        } else {
            prev
        }
    }
}

/// The results of the cases of the verification groups that apply, in order.
pub open spec fn sigver_results(groups: Seq<SigVerGroup>) -> Seq<Result<SigVerOutcome, HarnessError>>
    decreases groups.len(),
{
    if groups.len() == 0 {
        Seq::empty()
    } else {
        let prev = sigver_results(groups.drop_last());
        let g = groups.last();
        if sigver_group_applies(g) {
            prev + g.tests@.map_values(|c: SigVerCase| sigver_case_result(g.tg_id, c))
        } else {
            prev
        }
    }
}

/// Once an error occurs, appending results does not change the first error.
pub proof fn lemma_first_error_append<O>(a: Seq<Result<O, HarnessError>>, b: Seq<Result<O, HarnessError>>)
    requires
        first_error(a) is Some,
    ensures
        first_error(a + b) == first_error(a),
    decreases b.len(),
{
    if b.len() == 0 {
        assert(a + b =~= a);
    } else {
        lemma_first_error_append(a, b.drop_last());
        assert((a + b).drop_last() =~= a + b.drop_last());
    }
}

/// Without an error so far, one more error result is the first error.
proof fn lemma_first_error_push<O>(a: Seq<Result<O, HarnessError>>, e: HarnessError)
    requires
        first_error(a) is None,
    ensures
        first_error(a.push(Err(e))) == Some(e),
{
    assert(a.push(Err(e)).drop_last() =~= a);
}

/// Without an error so far, one more success keeps the run free of errors.
proof fn lemma_first_error_push_ok<O>(a: Seq<Result<O, HarnessError>>, o: O)
    requires
        first_error(a) is None,
    ensures
        first_error(a.push(Ok(o))) is None,
        ok_values(a.push(Ok(o))) == ok_values(a).push(o),
{
    assert(a.push(Ok(o)).drop_last() =~= a);
    assert(ok_values(a.push(Ok(o))) =~= ok_values(a).push(o));
}

proof fn lemma_keygen_prefix_error(groups: Seq<KeyGenGroup>, k: int)
    requires
        0 <= k <= groups.len(),
        first_error(keygen_results(groups.take(k))) is Some,
    ensures
        first_error(keygen_results(groups)) == first_error(keygen_results(groups.take(k))),
    decreases groups.len() - k,
{
    if k == groups.len() {
        assert(groups.take(k) =~= groups);
    } else {
        let next = groups.take(k + 1);
        assert(next.drop_last() =~= groups.take(k));
        let g = next.last();
        if keygen_group_applies(g) {
            lemma_first_error_append(
                keygen_results(groups.take(k)),
                g.tests@.map_values(|c: KeyGenCase| keygen_case_result(c)),
            );
        }
        lemma_keygen_prefix_error(groups, k + 1);
    }
}

proof fn lemma_sigver_prefix_error(groups: Seq<SigVerGroup>, k: int)
    requires
        0 <= k <= groups.len(),
        first_error(sigver_results(groups.take(k))) is Some,
    ensures
        first_error(sigver_results(groups)) == first_error(sigver_results(groups.take(k))),
    decreases groups.len() - k,
{
    if k == groups.len() {
        assert(groups.take(k) =~= groups);
    } else {
        let next = groups.take(k + 1);
        assert(next.drop_last() =~= groups.take(k));
        let g = next.last();
        if sigver_group_applies(g) {
            lemma_first_error_append(
                sigver_results(groups.take(k)),
                g.tests@.map_values(|c: SigVerCase| sigver_case_result(g.tg_id, c)),
            );
        }
        lemma_sigver_prefix_error(groups, k + 1);
    }
}

/// Whether some key-generation group applies.
pub fn any_keygen_group_matches(groups: &Vec<KeyGenGroup>) -> (r: bool)
    ensures
        r == exists|i: int| 0 <= i < groups@.len() && keygen_group_applies(#[trigger] groups@[i]),
{
    let mut i: usize = 0;
    while i < groups.len()
        invariant
            i <= groups@.len(),
            forall|k: int| 0 <= k < i ==> !keygen_group_applies(#[trigger] groups@[k]),
        decreases groups@.len() - i,
    {
        if keygen_group_matches(&groups[i]) {
            return true;
        }
        i = i + 1;
    }
    false
}

/// Whether some verification group applies.
pub fn any_sigver_group_matches(groups: &Vec<SigVerGroup>) -> (r: bool)
    ensures
        r == exists|i: int| 0 <= i < groups@.len() && sigver_group_applies(#[trigger] groups@[i]),
{
    let mut i: usize = 0;
    while i < groups.len()
        invariant
            i <= groups@.len(),
            forall|k: int| 0 <= k < i ==> !sigver_group_applies(#[trigger] groups@[k]),
        decreases groups@.len() - i,
    {
        if sigver_group_matches(&groups[i]) {
            return true;
        }
        i = i + 1;
    }
    false
}

/// How many outcomes satisfy `bad`.
pub open spec fn mismatch_count<O>(s: Seq<O>, bad: spec_fn(O) -> bool) -> nat
    decreases s.len(),
{
    if s.len() == 0 {
        0
    } else {
        mismatch_count(s.drop_last(), bad) + if bad(s.last()) {
            1nat
        } else {
            0nat
        }
    }
}

/// No outcome mismatches exactly when the mismatch count is zero.
pub proof fn lemma_mismatch_count_zero<O>(s: Seq<O>, bad: spec_fn(O) -> bool)
    ensures
        (mismatch_count(s, bad) == 0) == (forall|k: int| 0 <= k < s.len() ==> !bad(#[trigger] s[k])),
    decreases s.len(),
{
    if s.len() > 0 {
        lemma_mismatch_count_zero(s.drop_last(), bad);
        if mismatch_count(s, bad) == 0 {
            assert forall|k: int| 0 <= k < s.len() implies !bad(#[trigger] s[k]) by {
                if k < s.len() - 1 {
                    assert(s[k] == s.drop_last()[k]);
                }
            }
        } else if !bad(s.last()) {
            let k = choose|k: int| 0 <= k < s.drop_last().len() && bad(#[trigger] s.drop_last()[k]);
            assert(s[k] == s.drop_last()[k]);
        }
    }
}

/// Replays every case of the key-generation groups that apply. Refused when none
/// applies; stops at the first case that cannot be decoded.
pub fn replay_keygen(groups: &Vec<KeyGenGroup>) -> (r: Result<KeyGenReport, HarnessError>)
    ensures
        match r {
            Ok(rep) => run_result(
                exists|i: int| 0 <= i < groups@.len() && keygen_group_applies(#[trigger] groups@[i]),
                keygen_results(groups@),
            ) == Ok::<Seq<KeyGenOutcome>, HarnessError>(rep.outcomes@) && rep.mismatches
                == mismatch_count(rep.outcomes@, |o: KeyGenOutcome| o.spec_is_mismatch()),
            Err(e) => run_result(
                exists|i: int| 0 <= i < groups@.len() && keygen_group_applies(#[trigger] groups@[i]),
                keygen_results(groups@),
            ) == Err::<Seq<KeyGenOutcome>, HarnessError>(e),
        },
{
    if !any_keygen_group_matches(groups) {
        return Err(HarnessError::NoMatchingGroups);
    }
    let mut out: Vec<KeyGenOutcome> = Vec::new();
    let mut i: usize = 0;
    proof {
        assert(groups@.take(0) =~= Seq::<KeyGenGroup>::empty());
        assert(out@ =~= ok_values(keygen_results(groups@.take(0))));
    }
    while i < groups.len()
        invariant
            i <= groups@.len(),
            first_error(keygen_results(groups@.take(i as int))) is None,
            out@ == ok_values(keygen_results(groups@.take(i as int))),
        decreases groups@.len() - i,
    {
        let g = &groups[i];
        proof {
            assert(groups@.take(i + 1).drop_last() =~= groups@.take(i as int));
            assert(groups@.take(i + 1).last() == groups@[i as int]);
        }
        if keygen_group_matches(g) {
            let ghost base = keygen_results(groups@.take(i as int));
            let ghost gres = g.tests@.map_values(|c: KeyGenCase| keygen_case_result(c));
            let mut j: usize = 0;
            proof {
                assert(base + gres.take(0) =~= base);
            }
            while j < g.tests.len()
                invariant
                    j <= g.tests@.len(),
                    gres.len() == g.tests@.len(),
                    gres == g.tests@.map_values(|c: KeyGenCase| keygen_case_result(c)),
                    first_error(base + gres.take(j as int)) is None,
                    out@ == ok_values(base + gres.take(j as int)),
                    i < groups@.len(),
                    *g == groups@[i as int],
                    keygen_group_applies(*g),
                    base == keygen_results(groups@.take(i as int)),
                    keygen_results(groups@.take(i + 1)) == base + gres,
                decreases g.tests@.len() - j,
            {
                let ghost prefix = base + gres.take(j as int);
                proof {
                    assert(base + gres.take(j + 1) =~= prefix.push(gres[j as int]));
                }
                match check_keygen_case(&g.tests[j]) {
                    Err(e) => {
                        proof {
                            lemma_first_error_push(prefix, e);
                            lemma_first_error_append(prefix.push(Err(e)), gres.skip(j + 1));
                            assert(prefix.push(Err(e)) + gres.skip(j + 1) =~= base + gres);
                            lemma_keygen_prefix_error(groups@, i + 1);
                        }
                        return Err(e);
                    },
                    Ok(o) => {
                        proof {
                            lemma_first_error_push_ok(prefix, o);
                        }
                        out.push(o);
                    },
                }
                j = j + 1;
            }
            proof {
                assert(gres.take(gres.len() as int) =~= gres);
            }
        }
        i = i + 1;
    }
    proof {
        assert(groups@.take(groups@.len() as int) =~= groups@);
    }
    let mismatches = count_keygen_mismatches(&out);
    Ok(KeyGenReport { outcomes: out, mismatches })
}

/// Counts the mismatching outcomes.
pub fn count_keygen_mismatches(outcomes: &Vec<KeyGenOutcome>) -> (r: usize)
    ensures
        r == mismatch_count(outcomes@, |o: KeyGenOutcome| o.spec_is_mismatch()),
{
    let mut n: usize = 0;
    let mut i: usize = 0;
    proof {
        assert(outcomes@.take(0) =~= Seq::<KeyGenOutcome>::empty());
    }
    while i < outcomes.len()
        invariant
            i <= outcomes@.len(),
            n <= i,
            n == mismatch_count(outcomes@.take(i as int), |o: KeyGenOutcome| o.spec_is_mismatch()),
        decreases outcomes@.len() - i,
    {
        proof {
            assert(outcomes@.take(i + 1).drop_last() =~= outcomes@.take(i as int));
        }
        if outcomes[i].is_mismatch() {
            n = n + 1;
        }
        i = i + 1;
    }
    proof {
        assert(outcomes@.take(outcomes@.len() as int) =~= outcomes@);
    }
    n
}

/// The outcomes of a key-generation run and how many of them mismatch.
#[derive(Debug)]
pub struct KeyGenReport {
    pub outcomes: Vec<KeyGenOutcome>,
    pub mismatches: usize,
}

impl KeyGenReport {
    /// A run passes when no case mismatched.
    pub fn passed(&self) -> (r: bool)
        requires
            self.mismatches == mismatch_count(self.outcomes@, |o: KeyGenOutcome| o.spec_is_mismatch()),
        ensures
            r == forall|k: int| 0 <= k < self.outcomes@.len() ==> !(#[trigger] self.outcomes@[k]).spec_is_mismatch(),
    {
        proof {
            lemma_mismatch_count_zero(self.outcomes@, |o: KeyGenOutcome| o.spec_is_mismatch());
        }
        self.mismatches == 0
    }
}

/// Replays every case of the verification groups that apply. Refused when none
/// applies; stops at the first case that cannot be decoded.
pub fn replay_sigver(groups: &Vec<SigVerGroup>) -> (r: Result<SigVerReport, HarnessError>)
    ensures
        match r {
            Ok(rep) => run_result(
                exists|i: int| 0 <= i < groups@.len() && sigver_group_applies(#[trigger] groups@[i]),
                sigver_results(groups@),
            ) == Ok::<Seq<SigVerOutcome>, HarnessError>(rep.outcomes@) && rep.mismatches
                == mismatch_count(rep.outcomes@, |o: SigVerOutcome| o.spec_is_mismatch()),
            Err(e) => run_result(
                exists|i: int| 0 <= i < groups@.len() && sigver_group_applies(#[trigger] groups@[i]),
                sigver_results(groups@),
            ) == Err::<Seq<SigVerOutcome>, HarnessError>(e),
        },
{
    if !any_sigver_group_matches(groups) {
        return Err(HarnessError::NoMatchingGroups);
    }
    let mut out: Vec<SigVerOutcome> = Vec::new();
    let mut i: usize = 0;
    proof {
        assert(groups@.take(0) =~= Seq::<SigVerGroup>::empty());
        assert(out@ =~= ok_values(sigver_results(groups@.take(0))));
    }
    while i < groups.len()
        invariant
            i <= groups@.len(),
            first_error(sigver_results(groups@.take(i as int))) is None,
            out@ == ok_values(sigver_results(groups@.take(i as int))),
        decreases groups@.len() - i,
    {
        let g = &groups[i];
        proof {
            assert(groups@.take(i + 1).drop_last() =~= groups@.take(i as int));
            assert(groups@.take(i + 1).last() == groups@[i as int]);
        }
        if sigver_group_matches(g) {
            let ghost base = sigver_results(groups@.take(i as int));
            let ghost gres = g.tests@.map_values(|c: SigVerCase| sigver_case_result(g.tg_id, c));
            let mut j: usize = 0;
            proof {
                assert(base + gres.take(0) =~= base);
            }
            while j < g.tests.len()
                invariant
                    j <= g.tests@.len(),
                    gres.len() == g.tests@.len(),
                    gres == g.tests@.map_values(|c: SigVerCase| sigver_case_result(g.tg_id, c)),
                    first_error(base + gres.take(j as int)) is None,
                    out@ == ok_values(base + gres.take(j as int)),
                    i < groups@.len(),
                    *g == groups@[i as int],
                    sigver_group_applies(*g),
                    base == sigver_results(groups@.take(i as int)),
                    sigver_results(groups@.take(i + 1)) == base + gres,
                decreases g.tests@.len() - j,
            {
                let ghost prefix = base + gres.take(j as int);
                proof {
                    assert(base + gres.take(j + 1) =~= prefix.push(gres[j as int]));
                }
                match check_sigver_case(g.tg_id, &g.tests[j]) {
                    Err(e) => {
                        proof {
                            lemma_first_error_push(prefix, e);
                            lemma_first_error_append(prefix.push(Err(e)), gres.skip(j + 1));
                            assert(prefix.push(Err(e)) + gres.skip(j + 1) =~= base + gres);
                            lemma_sigver_prefix_error(groups@, i + 1);
                        }
                        return Err(e);
                    },
                    Ok(o) => {
                        proof {
                            lemma_first_error_push_ok(prefix, o);
                        }
                        out.push(o);
                    },
                }
                j = j + 1;
            }
            proof {
                assert(gres.take(gres.len() as int) =~= gres);
            }
        }
        i = i + 1;
    }
    proof {
        assert(groups@.take(groups@.len() as int) =~= groups@);
    }
    let mismatches = count_sigver_mismatches(&out);
    Ok(SigVerReport { outcomes: out, mismatches })
}

/// Counts the mismatching outcomes.
pub fn count_sigver_mismatches(outcomes: &Vec<SigVerOutcome>) -> (r: usize)
    ensures
        r == mismatch_count(outcomes@, |o: SigVerOutcome| o.spec_is_mismatch()),
{
    let mut n: usize = 0;
    let mut i: usize = 0;
    proof {
        assert(outcomes@.take(0) =~= Seq::<SigVerOutcome>::empty());
    }
    while i < outcomes.len()
        invariant
            i <= outcomes@.len(),
            n <= i,
            n == mismatch_count(outcomes@.take(i as int), |o: SigVerOutcome| o.spec_is_mismatch()),
        decreases outcomes@.len() - i,
    {
        proof {
            assert(outcomes@.take(i + 1).drop_last() =~= outcomes@.take(i as int));
        }
        if outcomes[i].is_mismatch() {
            n = n + 1;
        }
        i = i + 1;
    }
    proof {
        assert(outcomes@.take(outcomes@.len() as int) =~= outcomes@);
    }
    n
}

/// The outcomes of a verification run and how many of them mismatch.
#[derive(Debug)]
pub struct SigVerReport {
    pub outcomes: Vec<SigVerOutcome>,
    pub mismatches: usize,
}

impl SigVerReport {
    /// A run passes when no case mismatched.
    pub fn passed(&self) -> (r: bool)
        requires
            self.mismatches == mismatch_count(self.outcomes@, |o: SigVerOutcome| o.spec_is_mismatch()),
        ensures
            r == forall|k: int| 0 <= k < self.outcomes@.len() ==> !(#[trigger] self.outcomes@[k]).spec_is_mismatch(),
    {
        proof {
            lemma_mismatch_count_zero(self.outcomes@, |o: SigVerOutcome| o.spec_is_mismatch());
        }
        self.mismatches == 0
    }
}

} // verus!
