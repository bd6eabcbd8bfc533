//! `Array.prototype.join` on an array literal whose elements have known
//! string forms.

use vstd::prelude::*;
use vstd::string::StringExecFns;

verus! {

/// `strings` joined with `separator` between neighbours.
pub open spec fn join(strings: Seq<Seq<char>>, separator: Seq<char>) -> Seq<char>
    decreases strings.len(),
{
    if strings.len() == 0 {
        Seq::empty()
    } else if strings.len() == 1 {
        strings[0]
    } else {
        join(strings.drop_last(), separator) + separator + strings.last()
    }
}

/// The view of an optional string.
pub open spec fn text_of(text: Option<String>) -> Option<Seq<char>> {
    match text {
        Some(s) => Some(s@),
        None => None,
    }
}

/// What `join` gives for elements with the string forms `texts`: nothing if
/// some element has no string form, else the string forms joined with the
/// separator, which is a comma if none is given.
pub open spec fn joined(texts: Seq<Option<Seq<char>>>, separator: Option<Seq<char>>) -> Option<
    Seq<char>,
> {
    if exists|i: int| 0 <= i < texts.len() && (#[trigger] texts[i]).is_none() {
        None
    } else {
        Some(
            join(
                texts.map_values(|t: Option<Seq<char>>| t.unwrap()),
                match separator {
                    Some(s) => s,
                    None => ","@,
                },
            ),
        )
    }
}

pub trait ArrayJoin {
    /// The string form of each element, `None` where the element has none.
    spec fn texts(&self) -> Seq<Option<Seq<char>>>;

    /// `Array.prototype.join ( separator )`
    fn array_join(&self, separator: Option<&str>) -> (result: Option<String>)
        ensures
            text_of(result) == joined(
                self.texts(),
                match separator {
                    Some(s) => Some(s@),
                    None => None,
                },
            ),
    ;
}

/// An array literal, reduced to the string form of each element: `None` for
/// an element whose string form is not known before the program runs.
pub struct ArrayExpression {
    pub elements: Vec<Option<String>>,
}

impl ArrayJoin for ArrayExpression {
    open spec fn texts(&self) -> Seq<Option<Seq<char>>> {
        self.elements@.map_values(|e: Option<String>| text_of(e))
    }

    fn array_join(&self, separator: Option<&str>) -> (result: Option<String>) {
        let separator = match separator {
            Some(s) => s,
            None => ",",
        };
        let ghost texts = self.texts();
        let ghost strings = texts.map_values(|t: Option<Seq<char>>| t.unwrap());
        let mut out = String::new();
        let mut i: usize = 0;
        while i < self.elements.len()
            invariant
                i <= self.elements.len(),
                texts == self.texts(),
                strings == texts.map_values(|t: Option<Seq<char>>| t.unwrap()),
                forall|j: int| 0 <= j < i ==> (#[trigger] texts[j]).is_some(),
                out@ == join(strings.take(i as int), separator@),
            decreases self.elements.len() - i,
        {
            match &self.elements[i] {
                None => {
                    assert(texts[i as int].is_none());
                    return None;
                },
                Some(s) => {
                    proof {
                        assert(strings.take(i + 1).drop_last() =~= strings.take(i as int));
                        assert(strings.take(i + 1).last() == s@);
                    }
                    if i > 0 {
                        out.append(separator);
                    }
                    out.append(s.as_str());
                },
            }
            i += 1;
        }
        proof {
            assert(strings.take(i as int) =~= strings);
        }
        Some(out)
    }
}

} // verus!
