//! Asset identifiers: the native asset, or a fungible token named by a
//! well-formed identifier such as `PING-a1b2c3`.
use vstd::prelude::*;

verus! {

/// Shortest ticker a token identifier may carry.
pub const TICKER_MIN_LENGTH: usize = 3;

/// Longest ticker a token identifier may carry.
pub const TICKER_MAX_LENGTH: usize = 10;

/// Number of random characters after the dash.
pub const RANDOM_CHARS_LENGTH: usize = 6;

pub const ASCII_UPPER_A: u8 = 65;
pub const ASCII_UPPER_Z: u8 = 90;
pub const ASCII_LOWER_A: u8 = 97;
pub const ASCII_LOWER_Z: u8 = 122;
pub const ASCII_DIGIT_0: u8 = 48;
pub const ASCII_DIGIT_9: u8 = 57;
pub const ASCII_DASH: u8 = 45;

/// What an asset identifier stands for, as plain values.
pub ghost enum AssetModel {
    Native,
    Token(Seq<u8>),
}

/// The asset a deposit is made in.
#[derive(Clone, Debug)]
pub enum AssetId {
    Native,
    Token(Vec<u8>),
}

impl View for AssetId {
    type V = AssetModel;

    open spec fn view(&self) -> AssetModel {
        match self {
            AssetId::Native => AssetModel::Native,
            AssetId::Token(bytes) => AssetModel::Token(bytes@),
        }
    }
}

pub open spec fn is_upper_alnum(c: u8) -> bool {
    (ASCII_UPPER_A <= c && c <= ASCII_UPPER_Z) || (ASCII_DIGIT_0 <= c && c <= ASCII_DIGIT_9)
}

pub open spec fn is_lower_alnum(c: u8) -> bool {
    (ASCII_LOWER_A <= c && c <= ASCII_LOWER_Z) || (ASCII_DIGIT_0 <= c && c <= ASCII_DIGIT_9)
}

/// A token identifier is a ticker of 3 to 10 upper-case letters or digits,
/// a dash, and 6 lower-case letters or digits.
pub open spec fn valid_token_identifier(s: Seq<u8>) -> bool {
    let n = s.len();
    let ticker_len = n - RANDOM_CHARS_LENGTH - 1;
    &&& TICKER_MIN_LENGTH + RANDOM_CHARS_LENGTH + 1 <= n
    &&& n <= TICKER_MAX_LENGTH + RANDOM_CHARS_LENGTH + 1
    &&& forall|i: int| 0 <= i < ticker_len ==> is_upper_alnum(#[trigger] s[i])
    &&& s[ticker_len] == ASCII_DASH
    &&& forall|i: int| ticker_len < i < n ==> is_lower_alnum(#[trigger] s[i])
}

/// An asset can be configured if it is the native asset or a well-formed token.
pub open spec fn valid_asset(a: AssetModel) -> bool {
    match a {
        AssetModel::Native => true,
        AssetModel::Token(s) => valid_token_identifier(s),
    }
}

/// How the native asset is written, in upper case.
pub open spec fn native_name() -> Seq<char> {
    seq!['E', 'G', 'L', 'D']
}

/// The asset called `name`, whose upper-case form is `upper`: the native
/// asset when `upper` spells its name, else the token of that name.
pub open spec fn named_asset(upper: Seq<char>, name: Seq<char>) -> AssetModel {
    if upper == native_name() {
        AssetModel::Native
    } else {
        AssetModel::Token(vstd::utf8::encode_utf8(name))
    }
}

/// What `str::to_uppercase` makes of a string.
pub uninterp spec fn upper_of(s: Seq<char>) -> Seq<char>;

/// Relies on `str::to_uppercase`: its result depends on the characters alone.
#[verifier::external_body]
fn to_upper(s: &str) -> (r: String)
    ensures
        r@ == upper_of(s@),
{
    s.to_uppercase()
}

/// The asset called `name`, given the upper-case form `upper` of that name.
pub fn asset_from_upper(upper: &String, name: &String) -> (r: AssetId)
    ensures
        r@ == named_asset(upper@, name@),
{
    let native = "EGLD".to_owned();
    proof {
        reveal_strlit("EGLD");
        assert(native@ =~= native_name());
    }
    if *upper == native {
        AssetId::Native
    } else {
        let bytes = name.as_str().as_bytes();
        let mut copy: Vec<u8> = Vec::new();
        let mut i: usize = 0;
        while i < bytes.len()
            invariant
                i <= bytes@.len(),
                copy@ == bytes@.subrange(0, i as int),
            decreases bytes@.len() - i,
        {
            copy.push(bytes[i]);
            i = i + 1;
            assert(copy@ =~= bytes@.subrange(0, i as int));
        }
        assert(copy@ =~= bytes@);
        AssetId::Token(copy)
    }
}

/// The asset a user names on the command line: the native asset's name in
/// any case, or a token identifier.
pub fn get_token_identifier(token_id: &String) -> (r: AssetId)
    ensures
        r@ == named_asset(upper_of(token_id@), token_id@),
{
    let upper = to_upper(token_id.as_str());
    asset_from_upper(&upper, token_id)
}

/// Checks the shape of a token identifier.
pub fn is_valid_token_identifier(id: &[u8]) -> (r: bool)
    ensures
        r == valid_token_identifier(id@),
{
    let n = id.len();
    if n < TICKER_MIN_LENGTH + RANDOM_CHARS_LENGTH + 1 || n > TICKER_MAX_LENGTH
        + RANDOM_CHARS_LENGTH + 1 {
        return false;
    }
    let ticker_len = n - RANDOM_CHARS_LENGTH - 1;
    let mut i: usize = 0;
    while i < ticker_len
        invariant
            ticker_len == id@.len() - RANDOM_CHARS_LENGTH - 1,
            i <= ticker_len,
            forall|j: int| 0 <= j < i ==> is_upper_alnum(#[trigger] id@[j]),
        decreases ticker_len - i,
    {
        let c = id[i];
        if !((ASCII_UPPER_A <= c && c <= ASCII_UPPER_Z) || (ASCII_DIGIT_0 <= c && c <= ASCII_DIGIT_9)) {
            return false;
        }
        i = i + 1;
    }
    if id[ticker_len] != ASCII_DASH {
        return false;
    }
    let mut k: usize = ticker_len + 1;
    while k < n
        invariant
            n == id@.len(),
            ticker_len == n - RANDOM_CHARS_LENGTH - 1,
            ticker_len < k <= n,
            forall|j: int| ticker_len < j < k ==> is_lower_alnum(#[trigger] id@[j]),
        decreases n - k,
    {
        let c = id[k];
        if !((ASCII_LOWER_A <= c && c <= ASCII_LOWER_Z) || (ASCII_DIGIT_0 <= c && c <= ASCII_DIGIT_9)) {
            return false;
        }
        k = k + 1;
    }
    true
}

/// Byte-wise equality of two identifiers.
fn same_bytes(a: &Vec<u8>, b: &Vec<u8>) -> (r: bool)
    ensures
        r == (a@ == b@),
{
    if a.len() != b.len() {
        return false;
    }
    let mut i: usize = 0;
    while i < a.len()
        invariant
            a@.len() == b@.len(),
            i <= a@.len(),
            forall|j: int| 0 <= j < i ==> a@[j] == b@[j],
        decreases a@.len() - i,
    {
        if a[i] != b[i] {
            return false;
        }
        i = i + 1;
    }
    assert(a@ =~= b@);
    true
}

impl AssetId {
    /// Whether two identifiers name the same asset; the native asset and a
    /// token are never the same, whatever the token is called.
    pub fn same_as(&self, other: &AssetId) -> (r: bool)
        ensures
            r == (self@ == other@),
    {
        match (self, other) {
            (AssetId::Native, AssetId::Native) => true,
            (AssetId::Token(a), AssetId::Token(b)) => same_bytes(a, b),
            _ => false,
        }
    }

    /// A copy of the identifier.
    pub fn clone_id(&self) -> (r: AssetId)
        ensures
            r@ == self@,
    {
        match self {
            AssetId::Native => AssetId::Native,
            AssetId::Token(bytes) => {
                let mut copy: Vec<u8> = Vec::new();
                let mut i: usize = 0;
                while i < bytes.len()
                    invariant
                        i <= bytes@.len(),
                        copy@ == bytes@.subrange(0, i as int),
                    decreases bytes@.len() - i,
                {
                    copy.push(bytes[i]);
                    i = i + 1;
                    assert(copy@ =~= bytes@.subrange(0, i as int));
                }
                assert(copy@ =~= bytes@);
                AssetId::Token(copy)
            },
        }
    }

    /// Whether the identifier may be configured as the accepted asset.
    pub fn is_valid(&self) -> (r: bool)
        ensures
            r == valid_asset(self@),
    {
        match self {
            AssetId::Native => true,
            AssetId::Token(bytes) => is_valid_token_identifier(bytes.as_slice()),
        }
    }
}

} // verus!
