//! What becomes of a line that the supervised command writes: the log
//! line it is forwarded as, or nothing.

use crate::text::{chars_of, trim, trim_bounds};
use vstd::prelude::*;
use vstd::string::{StrSliceExecFns, StringExecFns};

verus! {

/// Which of the command's two output streams a line came from.
#[derive(Clone, Copy, Debug, PartialEq, Eq, Structural)]
pub enum StreamTag {
    /// Standard output.
    Stdout,
    /// Standard error.
    Stderr,
}

impl StreamTag {
    /// The letter that marks a forwarded line.
    pub open spec fn label(self) -> Seq<char> {
        match self {
            StreamTag::Stdout => "O"@,
            StreamTag::Stderr => "E"@,
        }
    }

    /// The letter that marks a forwarded line.
    pub fn as_str(&self) -> (s: &'static str)
        ensures
            s@ == self.label(),
    {
        match *self {
            StreamTag::Stdout => "O",
            StreamTag::Stderr => "E",
        }
    }
}

/// Whether a line as read holds anything but white space.
pub open spec fn has_text(raw: Seq<char>) -> bool {
    trim(raw).len() > 0
}

/// The log line for a line with text: the tag, a bar, a space, and the
/// line without the white space around it.
pub open spec fn tagged(tag: StreamTag, raw: Seq<char>) -> Seq<char> {
    tag.label() + "| "@ + trim(raw)
}

/// What is logged for one line as read: nothing for a line of white space.
pub open spec fn forwarded_line(tag: StreamTag, raw: Seq<char>) -> Option<Seq<char>> {
    if has_text(raw) {
        Some(tagged(tag, raw))
    } else {
        None
    }
}

/// What is logged for the lines of one stream, in the order read.
pub open spec fn forwarded(tag: StreamTag, raws: Seq<Seq<char>>) -> Seq<Seq<char>> {
    raws.filter(|raw: Seq<char>| has_text(raw)).map_values(|raw: Seq<char>| tagged(tag, raw))
}

/// The log line for `raw`, a line as read from the stream `tag` with or
/// without its line ending; `None` where it holds only white space.
pub fn forward_line(tag: StreamTag, raw: &str) -> (r: Option<String>)
    ensures
        match r {
            Some(line) => forwarded_line(tag, raw@) == Some(line@),
            None => forwarded_line(tag, raw@) is None,
        },
{
    let chars = chars_of(raw);
    let (a, b) = trim_bounds(chars.as_slice());
    if a == b {
        None
    } else {
        let mut line = String::from_str(tag.as_str());
        line.append("| ");
        line.append(raw.substring_char(a, b));
        Some(line)
    }
}

/// Forwarding a stream line by line gives what forwarding it whole gives:
/// a line with text adds its log line after those of the lines before it,
/// and a line of white space adds nothing.
pub proof fn lemma_forwarded_push(tag: StreamTag, raws: Seq<Seq<char>>, raw: Seq<char>)
    ensures
        forwarded(tag, raws.push(raw)) == match forwarded_line(tag, raw) {
            Some(line) => forwarded(tag, raws).push(line),
            None => forwarded(tag, raws),
        },
{
    reveal(Seq::filter);
    let all = raws.push(raw);
    assert(all.drop_last() == raws);
    assert(all.last() == raw);
    let keep = |raw: Seq<char>| has_text(raw);
    let mark = |raw: Seq<char>| tagged(tag, raw);
    if has_text(raw) {
        assert(all.filter(keep) == raws.filter(keep).push(raw));
        assert(raws.filter(keep).push(raw).map_values(mark) == raws.filter(keep).map_values(
            mark,
        ).push(tagged(tag, raw)));
    } else {
        assert(all.filter(keep) == raws.filter(keep));
    }
}

/// Whether `line` is the log line of one of `raws` that has text.
pub open spec fn logs_a_line_of(tag: StreamTag, raws: Seq<Seq<char>>, line: Seq<char>) -> bool {
    exists|i: int| 0 <= i < raws.len() && has_text(#[trigger] raws[i]) && line == tagged(tag, raws[i])
}

/// The order of a stream is kept: what is logged for one run of lines
/// followed by another is what is logged for the first, followed by what
/// is logged for the second.
pub proof fn lemma_forwarded_in_order(tag: StreamTag, first: Seq<Seq<char>>, second: Seq<Seq<char>>)
    ensures
        forwarded(tag, first + second) == forwarded(tag, first) + forwarded(tag, second),
    decreases second.len(),
{
    if second.len() == 0 {
        reveal(Seq::filter);
        assert(first + second == first);
        assert(forwarded(tag, second) == Seq::<Seq<char>>::empty());
        assert(forwarded(tag, first) + forwarded(tag, second) == forwarded(tag, first));
    } else {
        let init = second.drop_last();
        let last = second.last();
        assert(second == init.push(last));
        assert(first + second == (first + init).push(last));
        lemma_forwarded_in_order(tag, first, init);
        lemma_forwarded_push(tag, first + init, last);
        lemma_forwarded_push(tag, init, last);
        if has_text(last) {
            assert((forwarded(tag, first) + forwarded(tag, init)).push(tagged(tag, last))
                == forwarded(tag, first) + forwarded(tag, init).push(tagged(tag, last)));
        }
    }
}

/// Every line with text is logged, under the tag of its stream, and
/// nothing else is: no line of white space, and no line that was not
/// read.
pub proof fn lemma_forwarded_is_the_lines_with_text(tag: StreamTag, raws: Seq<Seq<char>>)
    ensures
        forall|i: int|
            0 <= i < raws.len() && has_text(#[trigger] raws[i]) ==> forwarded(tag, raws).contains(
                tagged(tag, raws[i]),
            ),
        forall|j: int|
            0 <= j < forwarded(tag, raws).len() ==> logs_a_line_of(
                tag,
                raws,
                #[trigger] forwarded(tag, raws)[j],
            ),
    decreases raws.len(),
{
    if raws.len() == 0 {
        reveal(Seq::filter);
        assert(forwarded(tag, raws).len() == 0);
    } else {
        let init = raws.drop_last();
        let last = raws.last();
        assert(raws == init.push(last));
        lemma_forwarded_is_the_lines_with_text(tag, init);
        lemma_forwarded_push(tag, init, last);
        let before = forwarded(tag, init);
        let now = forwarded(tag, raws);
        assert forall|i: int| 0 <= i < raws.len() && has_text(#[trigger] raws[i]) implies now.contains(
            tagged(tag, raws[i]),
        ) by {
            if i < init.len() {
                assert(init[i] == raws[i]);
                let j = choose|j: int| 0 <= j < before.len() && before[j] == tagged(tag, init[i]);
                assert(now[j] == before[j]);
            } else {
                assert(now[now.len() - 1] == tagged(tag, last));
            }
        }
        assert forall|j: int| 0 <= j < now.len() implies logs_a_line_of(
            tag,
            raws,
            #[trigger] now[j],
        ) by {
            if j < before.len() {
                assert(now[j] == before[j]);
                assert(logs_a_line_of(tag, init, before[j]));
                let i = choose|i: int|
                    0 <= i < init.len() && has_text(#[trigger] init[i]) && before[j] == tagged(
                        tag,
                        init[i],
                    );
                assert(raws[i] == init[i]);
            } else {
                assert(has_text(last));
                assert(now[j] == tagged(tag, last));
                assert(raws[raws.len() - 1] == last);
            }
        }
    }
}

} // verus!
