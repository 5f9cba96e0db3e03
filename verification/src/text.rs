//! Text helpers shared by the other modules: the few operations on strings
//! and paths that are taken from the standard library as they are.

use vstd::prelude::*;

verus! {

/// `str`'s equality from std: two string slices are equal exactly when they
/// hold the same characters.
pub assume_specification[ <str as PartialEq>::eq ](a: &str, b: &str) -> (r: bool)
    ensures
        r == (a@ == b@),
;

/// The character of a decimal digit.
pub open spec fn digit_char(digit: nat) -> char
    recommends
        digit < 10,
{
    ('0' as nat + digit) as char
}

/// The decimal digits of a number, the most significant first, without
/// leading zeros.
pub open spec fn decimal_text(n: nat) -> Seq<char>
    decreases n,
{
    if n < 10 {
        seq![digit_char(n)]
    } else {
        decimal_text(n / 10).push(digit_char(n % 10))
    }
}

/// std's `to_string` on a `u32`. The contract says that it writes the
/// number in decimal, without sign, padding or leading zeros.
#[verifier::external_body]
pub(crate) fn decimal(n: u32) -> (r: String)
    ensures
        r@ == decimal_text(n as nat),
{
    n.to_string()
}

/// The lowercase form of a text as Unicode defines it.
pub uninterp spec fn lowercase_of(text: Seq<char>) -> Seq<char>;

/// std's `str::to_lowercase`. The contract gives its result a name and
/// says nothing more of it.
#[verifier::external_body]
pub(crate) fn lowercase(text: &str) -> (r: String)
    ensures
        r@ == lowercase_of(text@),
{
    text.to_lowercase()
}

/// The extension of a path: what follows the last dot of its file name,
/// where the file name has a dot that is not its first character. The
/// platform's path syntax decides what the file name is.
pub uninterp spec fn extension_of(path: Seq<char>) -> Option<Seq<char>>;

/// std's `Path::extension` on a path given as text. The contract gives its
/// result a name and says nothing more of it.
#[verifier::external_body]
pub(crate) fn path_extension(path: &str) -> (r: Option<String>)
    ensures
        r.deep_view() == extension_of(path@),
{
    match std::path::Path::new(path).extension() {
        Some(e) => Some(e.to_string_lossy().into_owned()),
        None => None,
    }
}

/// The file name of a path: its last component, where the path does not
/// end in the root or in `..`. The platform's path syntax decides what the
/// components are.
pub uninterp spec fn file_name_of(path: Seq<char>) -> Option<Seq<char>>;

/// std's `Path::file_name` on a path given as text. The contract gives its
/// result a name and says nothing more of it.
#[verifier::external_body]
pub(crate) fn path_file_name(path: &str) -> (r: Option<String>)
    ensures
        r.deep_view() == file_name_of(path@),
{
    match std::path::Path::new(path).file_name() {
        Some(n) => Some(n.to_string_lossy().into_owned()),
        None => None,
    }
}

/// A copy of an optional text.
pub(crate) fn copy_text(text: &Option<String>) -> (r: Option<String>)
    ensures
        r.deep_view() == text.deep_view(),
{
    match text {
        Some(t) => Some(t.clone()),
        None => None,
    }
}

/// A copy of a list of texts.
pub(crate) fn copy_texts(texts: &Vec<String>) -> (r: Vec<String>)
    ensures
        r.deep_view() == texts.deep_view(),
{
    let mut r: Vec<String> = Vec::new();
    let mut i: usize = 0;
    while i < texts.len()
        invariant
            i <= texts.len(),
            r.len() == i,
            forall|j: int| 0 <= j < i ==> r[j]@ == texts[j]@,
        decreases texts.len() - i,
    {
        r.push(texts[i].clone());
        i += 1;
    }
    assert(r.deep_view() =~= texts.deep_view());
    r
}

/// A copy of a list of numbers.
pub(crate) fn copy_numbers(numbers: &Vec<u32>) -> (r: Vec<u32>)
    ensures
        r@ == numbers@,
{
    let mut r: Vec<u32> = Vec::new();
    let mut i: usize = 0;
    while i < numbers.len()
        invariant
            i <= numbers.len(),
            r.len() == i,
            forall|j: int| 0 <= j < i ==> r[j] == numbers[j],
        decreases numbers.len() - i,
    {
        r.push(numbers[i]);
        i += 1;
    }
    assert(r@ =~= numbers@);
    r
}

} // verus!
