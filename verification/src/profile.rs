use vstd::prelude::*;

verus! {

/// A browser-impersonation fingerprint, identified by family and version.
/// The transport layer maps each tag onto its TLS and HTTP/2 preset.
#[derive(Clone, Copy, PartialEq, Eq, Structural, Debug)]
pub enum BrowserTag {
    Chrome142,
    Chrome141,
    Chrome140,
    Chrome139,
    Chrome138,
    Chrome137,
    Chrome136,
    Chrome135,
    Chrome134,
    Chrome133,
    Chrome132,
    Chrome131,
    Chrome130,
    Chrome129,
    Chrome128,
    Chrome127,
    Chrome126,
    Chrome124,
}

/// The fixed catalog the selector draws from, newest first.
pub open spec fn pool() -> Seq<BrowserTag> {
    seq![
        BrowserTag::Chrome142,
        BrowserTag::Chrome141,
        BrowserTag::Chrome140,
        BrowserTag::Chrome139,
        BrowserTag::Chrome138,
        BrowserTag::Chrome137,
        BrowserTag::Chrome136,
        BrowserTag::Chrome135,
        BrowserTag::Chrome134,
        BrowserTag::Chrome133,
        BrowserTag::Chrome132,
        BrowserTag::Chrome131,
        BrowserTag::Chrome130,
        BrowserTag::Chrome129,
        BrowserTag::Chrome128,
        BrowserTag::Chrome127,
        BrowserTag::Chrome126,
        BrowserTag::Chrome124,
    ]
}

/// The catalog as a vector, in the order of `pool`.
pub fn pool_vec() -> (v: Vec<BrowserTag>)
    ensures
        v@ == pool(),
{
    let mut v: Vec<BrowserTag> = Vec::new();
    v.push(BrowserTag::Chrome142);
    v.push(BrowserTag::Chrome141);
    v.push(BrowserTag::Chrome140);
    v.push(BrowserTag::Chrome139);
    v.push(BrowserTag::Chrome138);
    v.push(BrowserTag::Chrome137);
    v.push(BrowserTag::Chrome136);
    v.push(BrowserTag::Chrome135);
    v.push(BrowserTag::Chrome134);
    v.push(BrowserTag::Chrome133);
    v.push(BrowserTag::Chrome132);
    v.push(BrowserTag::Chrome131);
    v.push(BrowserTag::Chrome130);
    v.push(BrowserTag::Chrome129);
    v.push(BrowserTag::Chrome128);
    v.push(BrowserTag::Chrome127);
    v.push(BrowserTag::Chrome126);
    v.push(BrowserTag::Chrome124);
    proof {
        assert(v@ =~= pool());
    }
    v
}

/// Relies on rand::random_range: a draw from the uniform distribution over
/// the given range; for the non-empty range below `n` the result is below
/// `n`.  Each call draws fresh randomness.
#[verifier::external_body]
fn random_below(n: usize) -> (r: usize)
    requires
        n >= 1,
    ensures
        r < n,
{
    rand::random_range(0..n)
}

/// Picks one profile per request, from the declared pool only, with no
/// memory of earlier picks.
pub fn random_profile() -> (r: BrowserTag)
    ensures
        pool().contains(r),
{
    let tags = pool_vec();
    let i = random_below(tags.len());
    let r = tags[i];
    proof {
        assert(pool().contains(r)) by {
            assert(pool()[i as int] == r);
        }
    }
    r
}

impl BrowserTag {
    /// The display string of the tag, as the envelope reports it.
    pub open spec fn spec_name(&self) -> Seq<char> {
        match self {
            BrowserTag::Chrome142 => "Chrome142"@,
            BrowserTag::Chrome141 => "Chrome141"@,
            BrowserTag::Chrome140 => "Chrome140"@,
            BrowserTag::Chrome139 => "Chrome139"@,
            BrowserTag::Chrome138 => "Chrome138"@,
            BrowserTag::Chrome137 => "Chrome137"@,
            BrowserTag::Chrome136 => "Chrome136"@,
            BrowserTag::Chrome135 => "Chrome135"@,
            BrowserTag::Chrome134 => "Chrome134"@,
            BrowserTag::Chrome133 => "Chrome133"@,
            BrowserTag::Chrome132 => "Chrome132"@,
            BrowserTag::Chrome131 => "Chrome131"@,
            BrowserTag::Chrome130 => "Chrome130"@,
            BrowserTag::Chrome129 => "Chrome129"@,
            BrowserTag::Chrome128 => "Chrome128"@,
            BrowserTag::Chrome127 => "Chrome127"@,
            BrowserTag::Chrome126 => "Chrome126"@,
            BrowserTag::Chrome124 => "Chrome124"@,
        }
    }

    pub fn name(&self) -> (r: String)
        ensures
            r@ == self.spec_name(),
    {
        match self {
            BrowserTag::Chrome142 => String::from_str("Chrome142"),
            BrowserTag::Chrome141 => String::from_str("Chrome141"),
            BrowserTag::Chrome140 => String::from_str("Chrome140"),
            BrowserTag::Chrome139 => String::from_str("Chrome139"),
            BrowserTag::Chrome138 => String::from_str("Chrome138"),
            BrowserTag::Chrome137 => String::from_str("Chrome137"),
            BrowserTag::Chrome136 => String::from_str("Chrome136"),
            BrowserTag::Chrome135 => String::from_str("Chrome135"),
            BrowserTag::Chrome134 => String::from_str("Chrome134"),
            BrowserTag::Chrome133 => String::from_str("Chrome133"),
            BrowserTag::Chrome132 => String::from_str("Chrome132"),
            BrowserTag::Chrome131 => String::from_str("Chrome131"),
            BrowserTag::Chrome130 => String::from_str("Chrome130"),
            BrowserTag::Chrome129 => String::from_str("Chrome129"),
            BrowserTag::Chrome128 => String::from_str("Chrome128"),
            BrowserTag::Chrome127 => String::from_str("Chrome127"),
            BrowserTag::Chrome126 => String::from_str("Chrome126"),
            BrowserTag::Chrome124 => String::from_str("Chrome124"),
        }
    }
}

} // verus!
