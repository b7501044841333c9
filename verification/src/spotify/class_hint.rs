//! The class hint of a window: the instance name and the class name of the
//! application that owns it.

use vstd::prelude::*;
use vstd::slice::slice_to_vec;
use vstd::string::*;
use vstd::utf8::*;

verus! {

/// A window's class hint.
#[derive(Debug)]
pub struct ClassHint {
    name: String,
    /// The class name, where it is UTF-8 text.
    class: Option<String>,
}

/// What a [`ClassHint`] holds, as sequences of characters.
pub struct ClassHintView {
    /// The instance name.
    pub name: Seq<char>,
    /// The class name; absent where its bytes are not UTF-8 text.
    pub class: Option<Seq<char>>,
}

impl View for ClassHint {
    type V = ClassHintView;

    closed spec fn view(&self) -> ClassHintView {
        ClassHintView {
            name: self.name@,
            class: match self.class {
                Some(class) => Some(class@),
                None => None,
            },
        }
    }
}

/// Whether `i` is where the first zero byte of `bytes` stands.
pub open spec fn first_nul_at(bytes: Seq<u8>, i: int) -> bool {
    &&& 0 <= i < bytes.len()
    &&& bytes[i] == 0
    &&& forall|j: int| 0 <= j < i ==> bytes[j] != 0
}

/// Whether a property value has the layout of a class hint: its first zero
/// byte is not its last byte.
pub open spec fn well_formed(bytes: Seq<u8>) -> bool {
    exists|i: int| first_nul_at(bytes, i) && i + 1 < bytes.len()
}

/// The bytes of the instance name: those before the first zero byte.
pub open spec fn name_bytes(bytes: Seq<u8>) -> Seq<u8> {
    let i = choose|i: int| first_nul_at(bytes, i);
    bytes.subrange(0, i)
}

/// The bytes of the class name: those between the first zero byte and the
/// last byte of the value, which ends it.
pub open spec fn class_bytes(bytes: Seq<u8>) -> Seq<u8> {
    let i = choose|i: int| first_nul_at(bytes, i);
    bytes.subrange(i + 1, bytes.len() - 1)
}

/// The text that bytes encode, where they are UTF-8.
pub open spec fn text_of(bytes: Seq<u8>) -> Option<Seq<char>> {
    if valid_utf8(bytes) {
        Some(decode_utf8(bytes))
    } else {
        None
    }
}

/// The class hint that a property value holds: the value is well formed and
/// its instance name is UTF-8 text. The class name is read where it is UTF-8
/// text too, and has no say in whether there is a hint.
pub open spec fn parse_hint(bytes: Seq<u8>) -> Option<ClassHintView> {
    if well_formed(bytes) && valid_utf8(name_bytes(bytes)) {
        Some(
            ClassHintView {
                name: decode_utf8(name_bytes(bytes)),
                class: text_of(class_bytes(bytes)),
            },
        )
    } else {
        None
    }
}

/// The view of a class hint that may be absent.
pub open spec fn hint_view(hint: Option<ClassHint>) -> Option<ClassHintView> {
    match hint {
        Some(h) => Some(h@),
        None => None,
    }
}

/// The first zero byte stands at one place only.
proof fn lemma_first_nul_unique(bytes: Seq<u8>, i: int)
    requires
        first_nul_at(bytes, i),
    ensures
        (choose|c: int| first_nul_at(bytes, c)) == i,
{
}

/// Where the first zero byte of `bytes` stands, if there is one.
fn find_nul(bytes: &[u8]) -> (found: Option<usize>)
    ensures
        match found {
            Some(i) => first_nul_at(bytes@, i as int),
            None => forall|i: int| 0 <= i < bytes@.len() ==> bytes@[i] != 0,
        },
{
    let n = bytes.len();
    let mut i: usize = 0;
    while i < n
        invariant
            n == bytes@.len(),
            i <= n,
            forall|j: int| 0 <= j < i ==> bytes@[j] != 0,
        decreases n - i,
    {
        if bytes[i] == 0 {
            return Some(i);
        }
        i += 1;
    }
    None
}

impl ClassHint {
    /// Reads a class hint from the value of a window's class property: the
    /// instance name, a zero byte, the class name, a closing byte.
    ///
    /// There is no hint in a value without a zero byte, in one whose first zero
    /// byte is its last byte, or in one whose instance name is not UTF-8. A
    /// class name that is not UTF-8 is left out of the hint.
    pub fn parse(bytes: &[u8]) -> (hint: Option<ClassHint>)
        ensures
            hint_view(hint) == parse_hint(bytes@),
    {
        let n = bytes.len();
        match find_nul(bytes) {
            Some(i) => {
                proof {
                    lemma_first_nul_unique(bytes@, i as int);
                }
                if i + 1 < n {
                    match String::from_utf8(slice_to_vec(&bytes[0..i])) {
                        Ok(name) => {
                            let class = match String::from_utf8(
                                slice_to_vec(&bytes[i + 1..n - 1]),
                            ) {
                                Ok(class) => Some(class),
                                Err(_) => None,
                            };
                            Some(ClassHint { name, class })
                        },
                        Err(_) => None,
                    }
                } else {
                    assert(!well_formed(bytes@)) by {
                        if well_formed(bytes@) {
                            let w = choose|w: int| first_nul_at(bytes@, w) && w + 1 < bytes@.len();
                            lemma_first_nul_unique(bytes@, w);
                        }
                    }
                    None
                }
            },
            None => None,
        }
    }

    /// The instance name of the application that owns the window.
    pub fn name(&self) -> (name: &str)
        ensures
            name@ == self@.name,
    {
        self.name.as_str()
    }

    /// The class name of the application that owns the window, where it is
    /// UTF-8 text.
    pub fn class(&self) -> (class: Option<&str>)
        ensures
            match class {
                Some(text) => self@.class == Some(text@),
                None => self@.class is None,
            },
    {
        match &self.class {
            Some(class) => Some(class.as_str()),
            None => None,
        }
    }
}

} // verus!
