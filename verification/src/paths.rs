//! Unix paths as the bytes they are made of.

use vstd::prelude::*;
use vstd::string::StringSliceAdditionalSpecFns;
use vstd::utf8::{decode_utf8, valid_utf8};

verus! {

/// A Unix path. Any bytes will do: a path need not be text.
#[derive(Debug, PartialEq, Eq)]
pub struct UnixPath {
    pub bytes: Vec<u8>,
}

impl View for UnixPath {
    type V = Seq<u8>;

    open spec fn view(&self) -> Seq<u8> {
        self.bytes@
    }
}

/// `component` below `base`: a slash comes between them unless `base` is empty or ends in one,
/// and an absolute `component` takes the place of `base`.
pub open spec fn joined(base: Seq<u8>, component: Seq<u8>) -> Seq<u8> {
    if component.len() > 0 && component[0] == 0x2f {
        component
    } else if base.len() == 0 || base.last() == 0x2f {
        base + component
    } else {
        base.push(0x2f) + component
    }
}

/// What `String::from_utf8_lossy` makes of bytes.
pub uninterp spec fn lossy_text(bytes: Seq<u8>) -> Seq<char>;

/// Calls `String::from_utf8_lossy`. Bytes that are UTF-8 give the text they encode; elsewhere
/// replacement characters come in, and the text is known by its name only.
#[verifier::external_body]
fn from_utf8_lossy(bytes: &[u8]) -> (text: String)
    ensures
        text@ == lossy_text(bytes@),
        valid_utf8(bytes@) ==> text@ == decode_utf8(bytes@),
{
    String::from_utf8_lossy(bytes).into_owned()
}

impl UnixPath {
    /// The path with this text.
    pub fn new(text: &str) -> (path: UnixPath)
        ensures
            path@ == text.spec_bytes(),
    {
        let mut bytes: Vec<u8> = Vec::new();
        bytes.extend_from_slice(text.as_bytes());
        assert(bytes@ =~= text.spec_bytes());
        UnixPath { bytes }
    }

    /// This path with `component` below it.
    pub fn join(&self, component: &str) -> (path: UnixPath)
        ensures
            path@ == joined(self@, component.spec_bytes()),
    {
        let tail = component.as_bytes();
        let mut bytes: Vec<u8> = Vec::new();
        if tail.len() == 0 || tail[0] != 0x2f {
            bytes.extend_from_slice(self.bytes.as_slice());
            assert(bytes@ =~= self@);
            if bytes.len() > 0 && bytes[bytes.len() - 1] != 0x2f {
                bytes.push(0x2f);
            }
        }
        bytes.extend_from_slice(tail);
        assert(bytes@ =~= joined(self@, tail@));
        UnixPath { bytes }
    }

    /// The path as text, for messages.
    pub fn display(&self) -> (text: String)
        ensures
            text@ == lossy_text(self@),
            valid_utf8(self@) ==> text@ == decode_utf8(self@),
    {
        from_utf8_lossy(self.bytes.as_slice())
    }
}

impl Clone for UnixPath {
    fn clone(&self) -> (copy: Self)
        ensures
            copy@ == self@,
    {
        let mut bytes: Vec<u8> = Vec::new();
        bytes.extend_from_slice(self.bytes.as_slice());
        assert(bytes@ =~= self@);
        UnixPath { bytes }
    }
}

/// Law: a relative component comes below the base. The path starts with the base and ends in the
/// component, with a slash between them exactly where the base has bytes and does not end in one.
pub proof fn relative_component_comes_below(base: Seq<u8>, component: Seq<u8>)
    requires
        component.len() == 0 || component[0] != 0x2f,
    ensures
        joined(base, component).take(base.len() as int) == base,
        joined(base, component).len() >= base.len() + component.len(),
        joined(base, component).skip(joined(base, component).len() - component.len()) == component,
        base.len() > 0 && base.last() != 0x2f ==> joined(base, component).len() == base.len()
            + component.len() + 1 && joined(base, component)[base.len() as int] == 0x2f,
        base.len() == 0 || base.last() == 0x2f ==> joined(base, component).len() == base.len()
            + component.len(),
{
    let path = joined(base, component);
    assert(path.take(base.len() as int) =~= base);
    assert(path.skip(path.len() - component.len()) =~= component);
}

/// Law: an absolute component takes the place of the base, whatever that is.
pub proof fn absolute_component_replaces_the_base(base: Seq<u8>, component: Seq<u8>)
    requires
        component.len() > 0,
        component[0] == 0x2f,
    ensures
        joined(base, component) == component,
{
}

/// Law: it does not matter whether components are joined one by one or all at once.
pub proof fn joining_is_associative(base: Seq<u8>, middle: Seq<u8>, last: Seq<u8>)
    requires
        middle.len() > 0,
    ensures
        joined(joined(base, middle), last) == joined(base, joined(middle, last)),
{
    if !(last.len() > 0 && last[0] == 0x2f) {
        assert(joined(middle, last)[0] == middle[0]);
    }
    assert(joined(joined(base, middle), last) =~= joined(base, joined(middle, last)));
}

} // verus!
