//! Properties that hold across the operations of the library.
use vstd::prelude::*;
use crate::decimal::{decimal, decimal_value, lemma_decimal_injective, lemma_decimal_value};
use crate::encoding::{
    base64_len, base64_standard, encodes_group, is_base64_char, lemma_base64_alphabet,
    lemma_base64_groups, lemma_base64_injective, lemma_base64_length,
};
use crate::node::{ascii_bytes, spec_address_of, spec_config_file, spec_moniker, sum_powers};
use crate::paths::{is_absolute, path_join, separator};
use crate::types::{
    Ed25519SigningScheme, GrugExtension, GrugHeight, GrugValidator, GrugValue, GrugVote, NilOrVal,
    SignedMessage,
};
use crate::validators::{is_first_with_address, total_power};

verus! {

/// Raising a height above zero by `n` and lowering it by `n` gives it back.
pub proof fn lemma_height_increment_then_decrement(h: GrugHeight, n: u64)
    requires
        h.0 > 0,
        h.0 + n <= u64::MAX,
    ensures
        h.spec_increment_by(n).spec_decrement_by(n) == Some(h),
{
}

/// Lowering a height by `n`, when that succeeds, and raising the result by
/// `n` gives the height back.
pub proof fn lemma_height_decrement_then_increment(h: GrugHeight, n: u64)
    requires
        h.spec_decrement_by(n) is Some,
    ensures
        h.spec_decrement_by(n).unwrap().spec_increment_by(n) == h,
        h.spec_decrement_by(n).unwrap().0 < h.0 || n == 0,
{
}

/// Distinct heights are written differently.
pub proof fn lemma_height_text_injective(a: GrugHeight, b: GrugHeight)
    requires
        decimal(a.0 as nat) == decimal(b.0 as nat),
    ensures
        a == b,
{
    lemma_decimal_injective(a.0 as nat, b.0 as nat);
}

/// Nodes configured with distinct indices get distinct monikers.
pub proof fn lemma_moniker_injective(a: nat, b: nat)
    requires
        spec_moniker(a) == spec_moniker(b),
    ensures
        a == b,
{
    let p = "node-"@;
    let (ma, mb) = (spec_moniker(a), spec_moniker(b));
    assert(decimal(a) =~= ma.subrange(p.len() as int, ma.len() as int));
    assert(decimal(b) =~= mb.subrange(p.len() as int, mb.len() as int));
    lemma_decimal_injective(a, b);
}

/// The address a node gives a public key is the identifier of the value
/// made of the same bytes.
pub proof fn lemma_address_is_value_id(pk: Seq<u8>)
    ensures
        spec_address_of(pk) == GrugValue::spec_id(pk),
{
}

/// Distinct public keys get distinct addresses, whichever node computes them.
pub proof fn lemma_address_injective(a: Seq<u8>, b: Seq<u8>)
    ensures
        spec_address_of(a) == spec_address_of(b) <==> a == b,
{
    if spec_address_of(a) == spec_address_of(b) {
        lemma_base64_injective(a, b);
    }
}

/// Distinct values have distinct identifiers; an identifier has four
/// characters per started group of three bytes, all base64 digits or `=`.
pub proof fn lemma_value_id(a: Seq<u8>, b: Seq<u8>)
    ensures
        GrugValue::spec_id(a) == GrugValue::spec_id(b) <==> a == b,
        GrugValue::spec_id(a).len() == base64_len(a.len()),
        forall|i: int|
            0 <= i < GrugValue::spec_id(a).len() ==> is_base64_char(
                #[trigger] GrugValue::spec_id(a)[i],
            ),
{
    if GrugValue::spec_id(a) == GrugValue::spec_id(b) {
        lemma_base64_injective(a, b);
    }
    lemma_base64_length(a);
    lemma_base64_alphabet(a);
}

/// In a genesis made from `(public key, voting power)` entries, the key's
/// address names a validator, and the first validator with that address holds
/// that very key: a lookup by the address of an entry's key finds the entry.
pub proof fn lemma_genesis_lookup(
    validators: Seq<GrugValidator>,
    entries: Seq<(Vec<u8>, u64)>,
    i: int,
    k: int,
)
    requires
        validators.len() == entries.len(),
        forall|j: int|
            0 <= j < entries.len() ==> {
                &&& (#[trigger] validators[j]).address@ == spec_address_of(entries[j].0@)
                &&& validators[j].public_key@ == entries[j].0@
            },
        0 <= i < entries.len(),
        is_first_with_address(validators, spec_address_of(entries[i].0@), k),
    ensures
        validators[i].address@ == spec_address_of(entries[i].0@),
        validators[k].public_key@ == entries[i].0@,
{
    assert(validators[k].address@ == spec_address_of(entries[k].0@));
    lemma_base64_injective(entries[k].0@, entries[i].0@);
}

/// Extending a vote and then taking its extension gives back the extension
/// and leaves the vote as it was without one.
pub proof fn lemma_extend_then_take(v: GrugVote, ext: SignedMessage<GrugExtension>)
    ensures
        GrugVote::spec_extend(v, ext).extension == Some(ext),
        GrugVote::spec_without_extension(GrugVote::spec_extend(v, ext))
            == GrugVote::spec_without_extension(v),
{
}

/// Taking the extension of a vote and extending the vote with it again gives
/// the vote back.
pub proof fn lemma_take_then_extend(v: GrugVote)
    requires
        v.extension is Some,
    ensures
        GrugVote::spec_extend(GrugVote::spec_without_extension(v), v.extension.unwrap()) == v,
{
}

/// A value-or-nil written as an option and read back is unchanged, and so is
/// an option read as a value-or-nil and written back.
pub proof fn lemma_nil_or_val_roundtrip<T>(x: NilOrVal<T>, o: Option<T>)
    ensures
        NilOrVal::spec_from_option(x.spec_to_option()) == x,
        NilOrVal::<T>::spec_from_option(o).spec_to_option() == o,
{
}

/// An encoded signature decodes to the signature itself.
pub proof fn lemma_signature_roundtrip(signature: Seq<u8>)
    ensures
        Ed25519SigningScheme::spec_decode_signature(
            Ed25519SigningScheme::spec_encode_signature(signature),
        ) == Some(signature),
{
}

/// A non-empty home directory without a trailing separator holds each
/// configuration file at `<home>/config/<name>`.
pub proof fn lemma_config_file_layout(home: Seq<u8>, name: Seq<char>)
    requires
        home.len() > 0,
        home.last() != separator(),
        !is_absolute(ascii_bytes(name)),
    ensures
        spec_config_file(home, name) == home + ascii_bytes("/config/"@) + ascii_bytes(name),
{
    reveal_strlit("config");
    reveal_strlit("/config/");
    let n = ascii_bytes(name);
    let c = ascii_bytes("config"@);
    assert(c.len() == 6 && c[0] == 99u8 && c.last() == 103u8);
    assert(path_join(home, c) =~= home.push(separator()) + c);
    assert(ascii_bytes("/config/"@) =~= seq![separator()] + c + seq![separator()]);
    assert(spec_config_file(home, name) =~= home + ascii_bytes("/config/"@) + n);
}

/// At most one position is the first with a given address, so the validator
/// that a lookup by address returns is determined by the set.
pub proof fn lemma_first_with_address_unique(
    s: Seq<GrugValidator>,
    addr: Seq<char>,
    i: int,
    j: int,
)
    requires
        is_first_with_address(s, addr, i),
        is_first_with_address(s, addr, j),
    ensures
        i == j,
{
}

/// Validators that carry, in order, the voting powers of the given entries
/// (as a genesis made from them does) have the entries' total power.
pub proof fn lemma_genesis_total_power(
    validators: Seq<GrugValidator>,
    entries: Seq<(Vec<u8>, u64)>,
)
    requires
        validators.len() == entries.len(),
        forall|i: int|
            0 <= i < entries.len() ==> #[trigger] validators[i].voting_power == entries[i].1,
    ensures
        total_power(validators) == sum_powers(entries),
    decreases entries.len(),
{
    if entries.len() > 0 {
        let n = entries.len() - 1;
        assert(validators[n].voting_power == entries[n].1);
        lemma_genesis_total_power(validators.drop_last(), entries.drop_last());
    }
}

} // verus!

verus! {

/// The total voting power of a set is the plain sum of its validators' powers:
/// the empty set has none, and adding a validator adds exactly its power.
pub proof fn lemma_total_power_sum(s: Seq<GrugValidator>, v: GrugValidator)
    ensures
        total_power(Seq::<GrugValidator>::empty()) == 0,
        total_power(s.push(v)) == total_power(s) + v.voting_power,
{
    assert(s.push(v).drop_last() =~= s);
}

/// The power of genesis entries is the plain sum of their powers: no entries
/// have none, and one more entry adds exactly its power.
pub proof fn lemma_sum_powers_sum(e: Seq<(Vec<u8>, u64)>, x: (Vec<u8>, u64))
    ensures
        sum_powers(Seq::<(Vec<u8>, u64)>::empty()) == 0,
        sum_powers(e.push(x)) == sum_powers(e) + x.1,
{
    assert(e.push(x).drop_last() =~= e);
}

/// A value's identifier, like the address of a key with the same bytes, is
/// exactly the standard padded base64 text of the bytes: four characters per
/// started group of three bytes, each group's 24 bits written six at a time
/// in order, and a short last group padded with `=`.
pub proof fn lemma_value_id_is_base64(bytes: Seq<u8>)
    ensures
        GrugValue::spec_id(bytes) == base64_standard(bytes),
        spec_address_of(bytes) == base64_standard(bytes),
        GrugValue::spec_id(bytes).len() == base64_len(bytes.len()),
        forall|g: int|
            0 <= g && 3 * g < bytes.len() ==> #[trigger] encodes_group(
                GrugValue::spec_id(bytes),
                bytes,
                g,
            ),
{
    lemma_base64_length(bytes);
    assert forall|g: int| 0 <= g && 3 * g < bytes.len() implies #[trigger] encodes_group(
        GrugValue::spec_id(bytes),
        bytes,
        g,
    ) by {
        lemma_base64_groups(bytes, g);
    }
}

/// A height is written as the decimal digits that denote it, with no leading
/// zero (unless the height is zero).
pub proof fn lemma_height_text_denotes_height(h: GrugHeight)
    ensures
        decimal_value(decimal(h.0 as nat)) == h.0,
        forall|i: int|
            0 <= i < decimal(h.0 as nat).len() ==> '0' <= #[trigger] decimal(h.0 as nat)[i] <= '9',
        decimal(h.0 as nat)[0] == '0' ==> h.0 == 0,
{
    lemma_decimal_value(h.0 as nat);
}

/// Encoding leaves a signature's bytes as they are, and decoding gives back
/// the bytes it is handed, for every byte string.
pub proof fn lemma_signature_bytes_unchanged(bytes: Seq<u8>)
    ensures
        Ed25519SigningScheme::spec_encode_signature(bytes) == bytes,
        Ed25519SigningScheme::spec_decode_signature(bytes) == Some(bytes),
{
}

/// Every configuration file lies in the `config` directory under the home,
/// whatever the home's shape: `<home>/config/<name>`, with no separator added
/// after an empty home or one that already ends in a separator.
pub proof fn lemma_config_file_in_config_dir(home: Seq<u8>, name: Seq<char>)
    requires
        !is_absolute(ascii_bytes(name)),
    ensures
        spec_config_file(home, name) == path_join(
            path_join(home, ascii_bytes("config"@)),
            ascii_bytes(name),
        ),
        spec_config_file(home, name) == (if home.len() == 0 || home.last() == separator() {
            home
        } else {
            home.push(separator())
        }) + ascii_bytes("config/"@) + ascii_bytes(name),
{
    reveal_strlit("config");
    reveal_strlit("config/");
    let c = ascii_bytes("config"@);
    assert(c.len() == 6 && c[0] == 99u8 && c.last() == 103u8);
    assert(ascii_bytes("config/"@) =~= c.push(separator()));
    let prefix = if home.len() == 0 || home.last() == separator() {
        home
    } else {
        home.push(separator())
    };
    assert(path_join(home, c) =~= prefix + c);
    assert(spec_config_file(home, name) =~= prefix + ascii_bytes("config/"@) + ascii_bytes(name));
}

} // verus!
