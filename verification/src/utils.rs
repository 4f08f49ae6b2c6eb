//! Helper routines over token-metadata account data: a sanitizer for
//! null-padded on-chain text fields, and a validator that accepts a raw
//! master-edition account buffer only when it describes a programmable
//! non-fungible master edition.

use crate::errors::TokenMetadataError;
use crate::types::is_master_edition_byte;
use crate::types::is_programmable_byte;
use crate::types::key_from_byte;
use crate::types::token_standard_from_byte;
use crate::types::Key;
use crate::types::TokenStandard;
use vstd::prelude::*;

verus! {

/// The offset of the token standard byte in the master edition
/// from the end of the account data.
const TOKEN_STANDARD_OFFSET: usize = 1;

/// The characters a sanitized text keeps: every character but the null
/// character, which pads fixed-width on-chain string fields.
pub open spec fn keep_pred() -> spec_fn(char) -> bool {
    |c: char| c != '\0'
}

/// The sanitized form of a text: the same characters in the same order, with
/// every null character removed.
pub open spec fn spec_clean(s: Seq<char>) -> Seq<char> {
    s.filter(keep_pred())
}

/// Relies on String::push: appends the given character to the end of the
/// string.
#[verifier::external_body]
fn push_char(s: &mut String, c: char)
    ensures
        final(s)@ == old(s)@.push(c),
{
    s.push(c);
}

/// One sanitizing step: extending the input by one character either appends
/// that character to the sanitized form or, for a null, leaves it unchanged.
proof fn lemma_clean_take_step(s: Seq<char>, i: int)
    requires
        0 <= i < s.len(),
    ensures
        spec_clean(s.take(i + 1)) == if s[i] != '\0' {
            spec_clean(s.take(i)).push(s[i])
        } else {
            spec_clean(s.take(i))
        },
{
    reveal(Seq::filter);
    assert(s.take(i + 1).drop_last() =~= s.take(i));
    assert(s.take(i + 1).last() == s[i]);
}

/// Removes all null bytes from a string.
pub fn clean(value: String) -> (r: String)
    ensures
        r@ == spec_clean(value@),
{
    let s: &str = value.as_str();
    let len: usize = s.unicode_len();
    let mut out: String = String::new();
    let mut i: usize = 0;
    while i < len
        invariant
            len == value@.len(),
            s@ == value@,
            i <= len,
            out@ == spec_clean(value@.take(i as int)),
        decreases len - i,
    {
        let c: char = s.get_char(i);
        proof {
            lemma_clean_take_step(value@, i as int);
        }
        if c != '\0' {
            push_char(&mut out, c);
        }
        i = i + 1;
    }
    proof {
        assert(value@.take(len as int) =~= value@);
    }
    out
}

/// A sanitized text contains no null character.
pub proof fn lemma_clean_no_nulls(s: Seq<char>)
    ensures
        forall|i: int| 0 <= i < spec_clean(s).len() ==> spec_clean(s)[i] != '\0',
{
    assert forall|i: int| 0 <= i < spec_clean(s).len() implies spec_clean(s)[i] != '\0' by {
        s.lemma_filter_pred(keep_pred(), i);
        assert(keep_pred()(spec_clean(s)[i]));
    }
}

/// Sanitizing a text that already contains no null character changes nothing.
proof fn lemma_clean_all_kept(s: Seq<char>)
    requires
        forall|i: int| 0 <= i < s.len() ==> s[i] != '\0',
    ensures
        spec_clean(s) == s,
    decreases s.len(),
{
    reveal(Seq::filter);
    if s.len() == 0 {
        assert(spec_clean(s) =~= s);
    } else {
        lemma_clean_all_kept(s.drop_last());
        assert(s.last() != '\0');
        assert(spec_clean(s) =~= s.drop_last().push(s.last()));
        assert(s.drop_last().push(s.last()) =~= s);
    }
}

/// Sanitizing is idempotent: sanitizing twice equals sanitizing once.
pub proof fn lemma_clean_idempotent(s: Seq<char>)
    ensures
        spec_clean(spec_clean(s)) == spec_clean(s),
{
    lemma_clean_no_nulls(s);
    lemma_clean_all_kept(spec_clean(s));
}

/// Checks that the `master_edition` is Programmable NFT master edition.
///
/// The leading byte is read as the account key and the trailing byte as the
/// token standard. That the token standard sits in the account's last byte is
/// an assumption inherited from the on-chain master-edition layout; nothing
/// in the buffer itself confirms it, so callers must hand in master-edition
/// account data laid out that way.
pub fn assert_edition_is_programmable(edition_data: &[u8]) -> (r: Result<
    (),
    TokenMetadataError,
>)
    ensures
        edition_data@.len() <= 1 ==> r == Err::<(), TokenMetadataError>(
            TokenMetadataError::InvalidMasterEditionAccountLength,
        ),
        edition_data@.len() > 1 && !is_master_edition_byte(edition_data@[0]) ==> r == Err::<
            (),
            TokenMetadataError,
        >(TokenMetadataError::InvalidEditionKey),
        edition_data@.len() > 1 && is_master_edition_byte(edition_data@[0])
            && !is_programmable_byte(edition_data@.last()) ==> r == Err::<(), TokenMetadataError>(
            TokenMetadataError::InvalidTokenStandard,
        ),
        edition_data@.len() > 1 && is_master_edition_byte(edition_data@[0])
            && is_programmable_byte(edition_data@.last()) ==> r == Ok::<(), TokenMetadataError>(()),
{
    if edition_data.len() > TOKEN_STANDARD_OFFSET {
        // the first byte is the account key
        let key = match key_from_byte(edition_data[0]) {
            Some(key) => key,
            None => {
                return Err(TokenMetadataError::InvalidEditionKey);
            },
        };
        match key {
            Key::MasterEditionV1 | Key::MasterEditionV2 => {
                // the last byte is the token standard
                let standard = match token_standard_from_byte(
                    edition_data[edition_data.len() - TOKEN_STANDARD_OFFSET],
                ) {
                    Some(standard) => standard,
                    None => {
                        return Err(TokenMetadataError::InvalidTokenStandard);
                    },
                };
                match standard {
                    TokenStandard::ProgrammableNonFungible
                    | TokenStandard::ProgrammableNonFungibleEdition => Ok(()),
                    _ => Err(TokenMetadataError::InvalidTokenStandard),
                }
            },
            _ => Err(TokenMetadataError::InvalidEditionKey),
        }
    } else {
        Err(TokenMetadataError::InvalidMasterEditionAccountLength)
    }
}

} // verus!
