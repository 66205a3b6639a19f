//! The character source that tokens take their text from.
use vstd::prelude::*;
use vstd::string::StrSliceExecFns;

verus! {

/// A source of characters, implemented by the scanner's input. `'b` is the
/// lifetime of the underlying text, which slices handed out borrow.
pub trait CharStream<'b> {
    /// Number of characters in the source.
    spec fn len_spec(&self) -> int;

    /// The text that `get_text(start, stop)` gives for the inclusive range.
    spec fn text_spec(&self, start: int, stop: int) -> Seq<char>;

    fn size(&self) -> (r: isize)
        ensures
            r as int == self.len_spec(),
    ;

    fn get_text(&self, start: isize, stop: isize) -> (r: &'b str)
        ensures
            r@ == self.text_spec(start as int, stop as int),
    ;
}

/// A character source over a string held elsewhere; the slices it hands
/// out borrow that string.
pub struct InputStream<'b> {
    data: &'b str,
    size: isize,
}

impl<'b> InputStream<'b> {
    #[verifier::type_invariant]
    spec fn size_is_char_count(&self) -> bool {
        self.size as int == self.data@.len()
    }

    /// The characters of the source.
    pub closed spec fn chars(&self) -> Seq<char> {
        self.data@
    }

    pub fn new(data: &'b str) -> (r: InputStream<'b>)
        requires
            data@.len() <= isize::MAX,
        ensures
            r.chars() == data@,
    {
        let n = data.unicode_len();
        InputStream { data, size: n as isize }
    }
}

impl<'b> CharStream<'b> for InputStream<'b> {
    open spec fn len_spec(&self) -> int {
        self.chars().len() as int
    }

    /// The characters from `start` to `stop`, both included; nothing where
    /// that range is empty or not within the source.
    open spec fn text_spec(&self, start: int, stop: int) -> Seq<char> {
        if 0 <= start <= stop < self.len_spec() {
            self.chars().subrange(start, stop + 1)
        } else {
            Seq::empty()
        }
    }

    fn size(&self) -> (r: isize) {
        proof {
            use_type_invariant(self);
        }
        self.size
    }

    fn get_text(&self, start: isize, stop: isize) -> (r: &'b str) {
        proof {
            use_type_invariant(self);
        }
        if 0 <= start && start <= stop && stop < self.size {
            self.data.substring_char(start as usize, (stop + 1) as usize)
        } else {
            let empty = "";
            proof {
                reveal_strlit("");
            }
            assert(empty@ =~= Seq::<char>::empty());
            empty
        }
    }
}

} // verus!
