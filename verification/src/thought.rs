//! Thought-tag streaming: splits the text an engine decodes into visible content and the
//! thoughts enclosed by `<think>` and `</think>`, whatever the boundaries of the chunks in
//! which the text arrives.

use crate::protocol::{
    InferenceEvent, InferenceEventView, ThoughtEvent, ThoughtEventView, event_views,
};
use crate::text::{chars_of, text_of};
use vstd::prelude::*;

verus! {

/// What one character of decoded text, or one delimiter, amounts to.
pub enum Mark {
    /// A thought opens.
    Open,
    /// A thought closes.
    Close,
    /// A character of visible content.
    Said(char),
    /// A character of a thought.
    Thought(char),
}

/// The delimiter that opens a thought.
pub open spec fn spec_open_tag() -> Seq<char> {
    seq!['<', 't', 'h', 'i', 'n', 'k', '>']
}

/// The delimiter that closes a thought.
pub open spec fn spec_close_tag() -> Seq<char> {
    seq!['<', '/', 't', 'h', 'i', 'n', 'k', '>']
}

/// The delimiter that ends the current stretch of text.
pub open spec fn spec_tag(inside: bool) -> Seq<char> {
    if inside {
        spec_close_tag()
    } else {
        spec_open_tag()
    }
}

/// The character of `text` at index `at`.
pub open spec fn spec_char_at(text: Seq<char>, at: int) -> char {
    text[at]
}

/// Whether `text` begins with `prefix`.
pub open spec fn spec_starts_with(text: Seq<char>, prefix: Seq<char>) -> bool {
    &&& prefix.len() <= text.len()
    &&& forall|k: int| 0 <= k < prefix.len() ==> text[k] == prefix[k]
}

/// The marks of a delimiter met while inside or outside a thought: none when thoughts are
/// suppressed.
pub open spec fn spec_toggle_marks(inside: bool, show: bool) -> Seq<Mark> {
    if !show {
        Seq::empty()
    } else if inside {
        seq![Mark::Close]
    } else {
        seq![Mark::Open]
    }
}

/// The marks of one character of text: content outside a thought; inside, a thought
/// character, or nothing when thoughts are suppressed.
pub open spec fn spec_char_marks(c: char, inside: bool, show: bool) -> Seq<Mark> {
    if !inside {
        seq![Mark::Said(c)]
    } else if show {
        seq![Mark::Thought(c)]
    } else {
        Seq::empty()
    }
}

/// Each character of a text as visible content.
pub open spec fn spec_said(text: Seq<char>) -> Seq<Mark>
    decreases text.len(),
{
    if text.len() == 0 {
        Seq::empty()
    } else {
        spec_said(text.drop_last()).push(Mark::Said(spec_char_at(text, text.len() - 1)))
    }
}

/// Each character of a text as part of a thought.
pub open spec fn spec_thought(text: Seq<char>) -> Seq<Mark>
    decreases text.len(),
{
    if text.len() == 0 {
        Seq::empty()
    } else {
        spec_thought(text.drop_last()).push(Mark::Thought(spec_char_at(text, text.len() - 1)))
    }
}

/// The marks of a stretch of text without delimiters.
pub open spec fn spec_text_marks(text: Seq<char>, inside: bool, show: bool) -> Seq<Mark> {
    if !inside {
        spec_said(text)
    } else if show {
        spec_thought(text)
    } else {
        Seq::empty()
    }
}

/// One more character of text adds its marks.
pub proof fn lemma_text_marks_push(text: Seq<char>, c: char, inside: bool, show: bool)
    ensures
        spec_text_marks(text.push(c), inside, show) == spec_text_marks(text, inside, show)
            + spec_char_marks(c, inside, show),
{
    assert(text.push(c).drop_last() =~= text);
    assert(spec_text_marks(text.push(c), inside, show) =~= spec_text_marks(text, inside, show)
        + spec_char_marks(c, inside, show));
}

/// What scanning a buffer yields: the marks that are settled, whether the scan ends
/// inside a thought, and the end of the buffer that is held back because it may be the
/// beginning of a delimiter.
pub struct Scan {
    pub marks: Seq<Mark>,
    pub inside: bool,
    pub held: Seq<char>,
}

/// Scans `buf` from left to right, starting inside or outside a thought. A delimiter
/// toggles the state; a remainder that is the beginning of the awaited delimiter is held
/// back; every other character is text.
pub open spec fn spec_scan(buf: Seq<char>, inside: bool, show: bool) -> Scan
    decreases buf.len(),
{
    let tag = spec_tag(inside);
    if buf.len() == 0 {
        Scan { marks: Seq::empty(), inside, held: Seq::empty() }
    } else if spec_starts_with(buf, tag) {
        let rest = spec_scan(buf.skip(tag.len() as int), !inside, show);
        Scan {
            marks: spec_toggle_marks(inside, show) + rest.marks,
            inside: rest.inside,
            held: rest.held,
        }
    } else if spec_starts_with(tag, buf) {
        Scan { marks: Seq::empty(), inside, held: buf }
    } else {
        let rest = spec_scan(buf.skip(1), inside, show);
        Scan {
            marks: spec_char_marks(spec_char_at(buf, 0), inside, show) + rest.marks,
            inside: rest.inside,
            held: rest.held,
        }
    }
}

/// The marks of one event.
pub open spec fn spec_event_marks(event: InferenceEventView) -> Seq<Mark> {
    match event {
        InferenceEventView::Thought(ThoughtEventView::Start) => seq![Mark::Open],
        InferenceEventView::Thought(ThoughtEventView::Delta(text)) => spec_thought(text),
        InferenceEventView::Thought(ThoughtEventView::Stop) => seq![Mark::Close],
        InferenceEventView::Content(text) => spec_said(text),
        _ => Seq::empty(),
    }
}

/// The marks of a list of events: what they say, however the text is cut into events.
pub open spec fn spec_marks(events: Seq<InferenceEventView>) -> Seq<Mark>
    decreases events.len(),
{
    if events.len() == 0 {
        Seq::empty()
    } else {
        spec_marks(events.drop_last()) + spec_event_marks(events.last())
    }
}

/// Scanning a text in two pieces, the second prefixed by what the first held back, yields
/// what scanning it in one piece yields: where a chunk ends does not matter, and a
/// delimiter is recognised even when its characters arrive in different chunks.
pub proof fn law_scan_resumes(a: Seq<char>, b: Seq<char>, inside: bool, show: bool)
    ensures
        ({
            let first = spec_scan(a, inside, show);
            let second = spec_scan(first.held + b, first.inside, show);
            spec_scan(a + b, inside, show) == (Scan {
                marks: first.marks + second.marks,
                inside: second.inside,
                held: second.held,
            })
        }),
    decreases a.len(),
{
    let tag = spec_tag(inside);
    let first = spec_scan(a, inside, show);
    let second = spec_scan(first.held + b, first.inside, show);
    let whole = spec_scan(a + b, inside, show);
    if a.len() == 0 {
        assert(a + b =~= b);
        assert(first.held + b =~= b);
        assert(first.marks + second.marks =~= second.marks);
    } else if spec_starts_with(a, tag) {
        assert(spec_starts_with(a + b, tag)) by {
            assert forall|k: int| 0 <= k < tag.len() implies (a + b)[k] == tag[k] by {
                assert((a + b)[k] == a[k]);
            }
        }
        assert((a + b).skip(tag.len() as int) =~= a.skip(tag.len() as int) + b);
        law_scan_resumes(a.skip(tag.len() as int), b, !inside, show);
        let rest = spec_scan(a.skip(tag.len() as int), !inside, show);
        assert(spec_toggle_marks(inside, show) + (rest.marks + second.marks) =~= (
        spec_toggle_marks(inside, show) + rest.marks) + second.marks);
    } else if spec_starts_with(tag, a) {
        assert(first.marks + second.marks =~= second.marks);
    } else {
        assert(!spec_starts_with(a + b, tag)) by {
            if spec_starts_with(a + b, tag) {
                if a.len() >= tag.len() {
                    assert forall|k: int| 0 <= k < tag.len() implies a[k] == tag[k] by {
                        assert((a + b)[k] == a[k]);
                    }
                } else {
                    assert forall|k: int| 0 <= k < a.len() implies tag[k] == a[k] by {
                        assert((a + b)[k] == a[k]);
                    }
                }
            }
        }
        assert(!spec_starts_with(tag, a + b)) by {
            if spec_starts_with(tag, a + b) {
                assert forall|k: int| 0 <= k < a.len() implies tag[k] == a[k] by {
                    assert((a + b)[k] == a[k]);
                }
            }
        }
        assert((a + b).skip(1) =~= a.skip(1) + b);
        assert((a + b)[0] == a[0]);
        law_scan_resumes(a.skip(1), b, inside, show);
        let rest = spec_scan(a.skip(1), inside, show);
        let first_marks = spec_char_marks(spec_char_at(a, 0), inside, show);
        assert(first_marks + (rest.marks + second.marks) =~= (first_marks + rest.marks)
            + second.marks);
    }
}

/// What is held back is the beginning of the awaited delimiter, and shorter than it.
pub proof fn law_held_text_begins_a_delimiter(buf: Seq<char>, inside: bool, show: bool)
    ensures
        spec_starts_with(
            spec_tag(spec_scan(buf, inside, show).inside),
            spec_scan(buf, inside, show).held,
        ),
        spec_scan(buf, inside, show).held.len() < spec_tag(
            spec_scan(buf, inside, show).inside,
        ).len(),
    decreases buf.len(),
{
    let tag = spec_tag(inside);
    if buf.len() == 0 {
    } else if spec_starts_with(buf, tag) {
        law_held_text_begins_a_delimiter(buf.skip(tag.len() as int), !inside, show);
    } else if spec_starts_with(tag, buf) {
        if buf.len() == tag.len() {
            assert(spec_starts_with(buf, tag));
        }
    } else {
        law_held_text_begins_a_delimiter(buf.skip(1), inside, show);
    }
}

/// Appending an event appends its marks.
pub proof fn lemma_marks_push(events: Seq<InferenceEventView>, event: InferenceEventView)
    ensures
        spec_marks(events.push(event)) == spec_marks(events) + spec_event_marks(event),
{
    assert(events.push(event).drop_last() =~= events);
}

/// Whether the event carries text.
pub open spec fn spec_is_text(event: InferenceEventView) -> bool {
    event is Content || (event is Thought && event->Thought_0 is Delta)
}

/// The number of characters the event carries.
pub open spec fn spec_text_len(event: InferenceEventView) -> nat {
    match event {
        InferenceEventView::Content(text) => text.len(),
        InferenceEventView::Thought(ThoughtEventView::Delta(text)) => text.len(),
        _ => 0,
    }
}

/// No event carries an empty text, and no two events that carry text follow each other:
/// each stretch of text is one event.
pub open spec fn spec_compact(events: Seq<InferenceEventView>) -> bool {
    &&& forall|i: int|
        0 <= i < events.len() && spec_is_text(#[trigger] events[i]) ==> spec_text_len(events[i])
            > 0
    &&& forall|i: int, j: int|
        0 <= i < events.len() && j == i + 1 && j < events.len() ==> !(spec_is_text(
            #[trigger] events[i],
        ) && spec_is_text(#[trigger] events[j]))
}

/// Where a list of events leaves a reader that was inside or outside a thought: `None`
/// if an event comes where it cannot, else whether the reader ends inside a thought.
/// Outside a thought come content and the start of a thought; inside come its text and
/// its end.
pub open spec fn spec_flow(events: Seq<InferenceEventView>, inside: bool) -> Option<bool>
    decreases events.len(),
{
    if events.len() == 0 {
        Some(inside)
    } else {
        match spec_flow(events.drop_last(), inside) {
            None => None,
            Some(state) => spec_flow_step(state, events.last()),
        }
    }
}

/// Where one event leaves a reader.
pub open spec fn spec_flow_step(inside: bool, event: InferenceEventView) -> Option<bool> {
    match event {
        InferenceEventView::Thought(ThoughtEventView::Start) => if inside {
            None
        } else {
            Some(true)
        },
        InferenceEventView::Thought(ThoughtEventView::Delta(_)) => if inside {
            Some(true)
        } else {
            None
        },
        InferenceEventView::Thought(ThoughtEventView::Stop) => if inside {
            Some(false)
        } else {
            None
        },
        InferenceEventView::Content(_) => if inside {
            None
        } else {
            Some(false)
        },
        _ => None,
    }
}

/// Appending an event moves the reader one step.
pub proof fn lemma_flow_push(events: Seq<InferenceEventView>, event: InferenceEventView, inside: bool)
    ensures
        spec_flow(events.push(event), inside) == match spec_flow(events, inside) {
            None => None,
            Some(state) => spec_flow_step(state, event),
        },
{
    assert(events.push(event).drop_last() =~= events);
}

/// Reading two lists one after the other is reading the first and then the second.
pub proof fn lemma_flow_concat(
    first: Seq<InferenceEventView>,
    second: Seq<InferenceEventView>,
    inside: bool,
)
    ensures
        spec_flow(first + second, inside) == match spec_flow(first, inside) {
            None => None,
            Some(state) => spec_flow(second, state),
        },
    decreases second.len(),
{
    if second.len() == 0 {
        assert(first + second =~= first);
    } else {
        lemma_flow_concat(first, second.drop_last(), inside);
        assert((first + second).drop_last() =~= first + second.drop_last());
    }
}

/// The marks of two lists one after the other.
pub proof fn lemma_marks_concat(first: Seq<InferenceEventView>, second: Seq<InferenceEventView>)
    ensures
        spec_marks(first + second) == spec_marks(first) + spec_marks(second),
    decreases second.len(),
{
    if second.len() == 0 {
        assert(first + second =~= first);
        assert(spec_marks(first) + spec_marks(second) =~= spec_marks(first));
    } else {
        lemma_marks_concat(first, second.drop_last());
        assert((first + second).drop_last() =~= first + second.drop_last());
        assert(spec_marks(first) + (spec_marks(second.drop_last()) + spec_event_marks(
            second.last(),
        )) =~= (spec_marks(first) + spec_marks(second.drop_last())) + spec_event_marks(
            second.last(),
        ));
    }
}

/// Whether the characters of `buf` from `at` on begin with `prefix`.
fn starts_with_at(buf: &Vec<char>, at: usize, prefix: &Vec<char>) -> (yes: bool)
    requires
        at <= buf.len(),
    ensures
        yes == spec_starts_with(buf@.skip(at as int), prefix@),
{
    if prefix.len() > buf.len() - at {
        return false;
    }
    let mut k: usize = 0;
    while k < prefix.len()
        invariant
            at <= buf.len(),
            prefix.len() <= buf.len() - at,
            k <= prefix.len(),
            forall|j: int| 0 <= j < k ==> buf@.skip(at as int)[j] == prefix[j],
        decreases prefix.len() - k,
    {
        if buf[at + k] != prefix[k] {
            assert(buf@.skip(at as int)[k as int] != prefix[k as int]);
            return false;
        }
        k += 1;
    }
    true
}

/// Whether the characters of `buf` from `at` on are the beginning of `text`.
fn rest_begins(buf: &Vec<char>, at: usize, text: &Vec<char>) -> (yes: bool)
    requires
        at <= buf.len(),
    ensures
        yes == spec_starts_with(text@, buf@.skip(at as int)),
{
    if buf.len() - at > text.len() {
        return false;
    }
    let mut k: usize = 0;
    while k < buf.len() - at
        invariant
            at <= buf.len(),
            buf.len() - at <= text.len(),
            k <= buf.len() - at,
            forall|j: int| 0 <= j < k ==> text[j] == buf@.skip(at as int)[j],
        decreases buf.len() - at - k,
    {
        if buf[at + k] != text[k] {
            assert(buf@.skip(at as int)[k as int] != text[k as int]);
            return false;
        }
        k += 1;
    }
    true
}

/// The delimiter that ends the current stretch of text.
fn tag_chars(inside: bool) -> (tag: Vec<char>)
    ensures
        tag@ == spec_tag(inside),
{
    let mut tag: Vec<char> = Vec::new();
    tag.push('<');
    if inside {
        tag.push('/');
    }
    tag.push('t');
    tag.push('h');
    tag.push('i');
    tag.push('n');
    tag.push('k');
    tag.push('>');
    assert(tag@ =~= spec_tag(inside));
    tag
}

/// The marks of the text gathered and not yet emitted: thought or content as the state
/// says while thoughts are shown, and content only while they are suppressed.
pub open spec fn spec_pending_marks(fragment: Seq<char>, inside: bool, show: bool) -> Seq<Mark> {
    if show && inside {
        spec_thought(fragment)
    } else {
        spec_said(fragment)
    }
}

/// Whether the list is empty or ends with an event that carries no text.
pub open spec fn spec_open_ended(events: Seq<InferenceEventView>) -> bool {
    events.len() == 0 || !spec_is_text(events.last())
}

/// Emits the text gathered so far as one event, if there is any.
fn flush(
    events: &mut Vec<InferenceEvent>,
    fragment: &mut Vec<char>,
    inside: bool,
    show: bool,
    Ghost(start): Ghost<bool>,
)
    requires
        spec_flow(event_views(old(events)@), start) == Some(inside && show),
        spec_compact(event_views(old(events)@)),
        spec_open_ended(event_views(old(events)@)),
    ensures
        spec_marks(event_views(final(events)@)) == spec_marks(event_views(old(events)@))
            + spec_pending_marks(old(fragment)@, inside, show),
        final(fragment)@.len() == 0,
        spec_flow(event_views(final(events)@), start) == Some(inside && show),
        spec_compact(event_views(final(events)@)),
        old(fragment)@.len() == 0 ==> final(events)@ == old(events)@,
{
    if fragment.len() > 0 {
        let text = text_of(fragment);
        fragment.clear();
        let event = if inside && show {
            InferenceEvent::Thought(ThoughtEvent::Delta(text))
        } else {
            InferenceEvent::Content(text)
        };
        proof {
            let before = event_views(events@);
            lemma_marks_push(before, event@);
            lemma_flow_push(before, event@, start);
            assert(event_views(events@.push(event)) =~= before.push(event@));
            assert(spec_compact(before.push(event@))) by {
                let after = before.push(event@);
                assert forall|i: int|
                    0 <= i < after.len() && spec_is_text(#[trigger] after[i]) implies spec_text_len(
                    after[i],
                ) > 0 by {
                    if i < before.len() {
                        assert(after[i] == before[i]);
                    }
                }
                assert forall|i: int, j: int|
                    0 <= i < after.len() && j == i + 1 && j < after.len() implies !(spec_is_text(
                    #[trigger] after[i],
                ) && spec_is_text(#[trigger] after[j])) by {
                    assert(after[i] == before[i]);
                    if j < before.len() {
                        assert(after[j] == before[j]);
                    } else {
                        assert(before[i] == before.last());
                    }
                }
            }
        }
        events.push(event);
    } else {
        assert(old(fragment)@.len() == 0);
        assert(spec_pending_marks(old(fragment)@, inside, show) =~= Seq::<Mark>::empty());
        assert(spec_marks(event_views(events@)) + Seq::<Mark>::empty() =~= spec_marks(
            event_views(events@),
        ));
    }
}

/// Emits the event of a delimiter.
fn push_toggle(events: &mut Vec<InferenceEvent>, inside: bool, Ghost(start): Ghost<bool>)
    requires
        spec_flow(event_views(old(events)@), start) == Some(inside),
        spec_compact(event_views(old(events)@)),
    ensures
        spec_marks(event_views(final(events)@)) == spec_marks(event_views(old(events)@))
            + spec_toggle_marks(inside, true),
        spec_flow(event_views(final(events)@), start) == Some(!inside),
        spec_compact(event_views(final(events)@)),
        spec_open_ended(event_views(final(events)@)),
{
    let toggle = if inside {
        InferenceEvent::Thought(ThoughtEvent::Stop)
    } else {
        InferenceEvent::Thought(ThoughtEvent::Start)
    };
    proof {
        let before = event_views(events@);
        let after = before.push(toggle@);
        lemma_marks_push(before, toggle@);
        lemma_flow_push(before, toggle@, start);
        assert(event_views(events@.push(toggle)) =~= after);
        assert forall|i: int|
            0 <= i < after.len() && spec_is_text(#[trigger] after[i]) implies spec_text_len(
            after[i],
        ) > 0 by {
            if i < before.len() {
                assert(after[i] == before[i]);
            }
        }
        assert forall|i: int, j: int|
            0 <= i < after.len() && j == i + 1 && j < after.len() implies !(spec_is_text(
            #[trigger] after[i],
        ) && spec_is_text(#[trigger] after[j])) by {
            assert(after[i] == before[i]);
            if j < before.len() {
                assert(after[j] == before[j]);
            }
        }
    }
    events.push(toggle);
}

/// The streaming splitter: fed the decoded text chunk by chunk, it emits content and
/// thought events as soon as they are settled.
pub struct ThoughtParser {
    show_thinking: bool,
    inside: bool,
    held: Vec<char>,
}

impl ThoughtParser {
    /// Whether thought events are emitted.
    pub closed spec fn shows(&self) -> bool {
        self.show_thinking
    }

    /// Whether the text fed so far ends inside a thought.
    pub closed spec fn inside(&self) -> bool {
        self.inside
    }

    /// The end of the text fed so far that is held back.
    pub closed spec fn held(&self) -> Seq<char> {
        self.held@
    }

    /// A splitter at the start of a text, outside any thought.
    pub fn new(show_thinking: bool) -> (parser: Self)
        ensures
            parser.shows() == show_thinking,
            !parser.inside(),
            parser.held() == Seq::<char>::empty(),
    {
        ThoughtParser { show_thinking, inside: false, held: Vec::new() }
    }

    /// Takes the next chunk of text and emits what it settles: the marks of the scan of
    /// what was held back followed by the chunk, each stretch of text as one event, in an
    /// order a reader can follow.
    pub fn feed(&mut self, chunk: &str) -> (events: Vec<InferenceEvent>)
        ensures
            final(self).shows() == old(self).shows(),
            ({
                let scan = spec_scan(old(self).held() + chunk@, old(self).inside(), old(self).shows());
                &&& spec_marks(event_views(events@)) == scan.marks
                &&& final(self).inside() == scan.inside
                &&& final(self).held() == scan.held
            }),
            spec_flow(event_views(events@), old(self).inside() && old(self).shows()) == Some(
                final(self).inside() && final(self).shows(),
            ),
            spec_compact(event_views(events@)),
    {
        let show = self.show_thinking;
        let ghost start = self.inside && show;
        let ghost target = spec_scan(self.held@ + chunk@, self.inside, show);
        let mut buf: Vec<char> = Vec::new();
        std::mem::swap(&mut buf, &mut self.held);
        let mut more = chars_of(chunk);
        buf.append(&mut more);
        let mut events: Vec<InferenceEvent> = Vec::new();
        let mut fragment: Vec<char> = Vec::new();
        let mut i: usize = 0;
        let mut holding = false;
        proof {
            assert(buf@.skip(0) =~= buf@);
            assert(event_views(events@) =~= Seq::<InferenceEventView>::empty());
            assert(spec_marks(event_views(events@)) =~= Seq::<Mark>::empty());
            assert(fragment@.len() == 0);
            assert(spec_pending_marks(fragment@, self.inside, show) =~= Seq::<Mark>::empty());
            assert(Seq::<Mark>::empty() + Seq::<Mark>::empty() + target.marks =~= target.marks);
        }
        while i < buf.len() && !holding
            invariant
                i <= buf.len(),
                self.show_thinking == show,
                spec_marks(event_views(events@)) + spec_pending_marks(fragment@, self.inside, show)
                    + spec_scan(buf@.skip(i as int), self.inside, show).marks == target.marks,
                spec_scan(buf@.skip(i as int), self.inside, show).inside == target.inside,
                spec_scan(buf@.skip(i as int), self.inside, show).held == target.held,
                holding ==> {
                    &&& spec_scan(buf@.skip(i as int), self.inside, show).marks.len() == 0
                    &&& spec_scan(buf@.skip(i as int), self.inside, show).held == buf@.skip(
                        i as int,
                    )
                    &&& spec_scan(buf@.skip(i as int), self.inside, show).inside == self.inside
                },
                spec_flow(event_views(events@), start) == Some(self.inside && show),
                spec_compact(event_views(events@)),
                spec_open_ended(event_views(events@)),
                !show ==> events@.len() == 0,
            decreases buf.len() - i + (if holding { 0int } else { 1int }),
        {
            let tag = tag_chars(self.inside);
            let ghost rest = buf@.skip(i as int);
            let ghost before = spec_marks(event_views(events@));
            let ghost gathered = spec_pending_marks(fragment@, self.inside, show);
            if starts_with_at(&buf, i, &tag) {
                let ghost after = spec_scan(rest.skip(tag.len() as int), !self.inside, show);
                if show {
                    flush(&mut events, &mut fragment, self.inside, show, Ghost(start));
                    push_toggle(&mut events, self.inside, Ghost(start));
                }
                proof {
                    assert(rest.skip(tag.len() as int) =~= buf@.skip(i + tag.len()));
                    if show {
                        assert(fragment@.len() == 0);
                        assert(spec_pending_marks(fragment@, !self.inside, show) =~= Seq::<
                            Mark,
                        >::empty());
                        assert(before + gathered + spec_toggle_marks(self.inside, show) + Seq::<
                            Mark,
                        >::empty() + after.marks =~= before + gathered + (spec_toggle_marks(
                            self.inside,
                            show,
                        ) + after.marks));
                    } else {
                        assert(before + gathered + after.marks =~= before + gathered + (
                        spec_toggle_marks(self.inside, show) + after.marks));
                    }
                }
                self.inside = !self.inside;
                i += tag.len();
            } else if rest_begins(&buf, i, &tag) {
                holding = true;
            } else {
                let c = buf[i];
                let ghost after = spec_scan(rest.skip(1), self.inside, show);
                let ghost prior = fragment@;
                proof {
                    assert(rest[0] == c);
                    assert(rest.skip(1) =~= buf@.skip(i + 1));
                }
                if !self.inside || show {
                    fragment.push(c);
                }
                proof {
                    let now = spec_pending_marks(fragment@, self.inside, show);
                    let one = spec_char_marks(c, self.inside, show);
                    if !self.inside || show {
                        assert(fragment@ == prior.push(c));
                        lemma_text_marks_push(prior, c, self.inside, show);
                        assert(now == spec_text_marks(prior.push(c), self.inside, show));
                        assert(gathered == spec_text_marks(prior, self.inside, show));
                    } else {
                        assert(fragment@ == prior);
                    }
                    assert(now =~= gathered + one);
                    assert(before + (gathered + one) + after.marks =~= before + gathered + (one
                        + after.marks));
                }
                i += 1;
            }
        }
        let ghost before = spec_marks(event_views(events@));
        let ghost gathered = spec_pending_marks(fragment@, self.inside, show);
        if !self.inside || show {
            flush(&mut events, &mut fragment, self.inside, show, Ghost(start));
            proof {
                assert(before + gathered + Seq::<Mark>::empty() =~= before + gathered);
            }
        } else {
            // Content gathered before a suppressed thought that is still open.
            flush(&mut events, &mut fragment, false, show, Ghost(start));
            proof {
                assert(before + gathered + Seq::<Mark>::empty() =~= before + gathered);
            }
        }
        let ghost whole = buf@;
        self.held = buf.split_off(i);
        proof {
            assert(self.held@ =~= whole.skip(i as int));
        }
        events
    }

    /// Ends the text: what was held back is text after all, and a thought still open is
    /// closed.
    pub fn finish(&mut self) -> (events: Vec<InferenceEvent>)
        ensures
            final(self).shows() == old(self).shows(),
            !final(self).inside(),
            final(self).held() == Seq::<char>::empty(),
            spec_marks(event_views(events@)) == spec_closing_marks(
                old(self).held(),
                old(self).inside(),
                old(self).shows(),
            ),
            spec_flow(event_views(events@), old(self).inside() && old(self).shows()) == Some(
                false,
            ),
            spec_compact(event_views(events@)),
    {
        let show = self.show_thinking;
        let inside = self.inside;
        let ghost start = inside && show;
        let mut events: Vec<InferenceEvent> = Vec::new();
        let mut fragment: Vec<char> = Vec::new();
        std::mem::swap(&mut fragment, &mut self.held);
        proof {
            assert(event_views(events@) =~= Seq::<InferenceEventView>::empty());
            assert(spec_marks(event_views(events@)) =~= Seq::<Mark>::empty());
        }
        let ghost text = fragment@;
        if inside && !show {
            fragment.clear();
        } else {
            flush(&mut events, &mut fragment, inside, show, Ghost(start));
        }
        if inside && show {
            push_toggle(&mut events, true, Ghost(start));
        }
        self.inside = false;
        proof {
            let marks = spec_text_marks(text, inside, show);
            assert(Seq::<Mark>::empty() + marks =~= marks);
            assert(marks + Seq::<Mark>::empty() =~= marks);
        }
        events
    }
}

/// The marks that end a text: what was held back as text, then the end of a thought
/// still open.
pub open spec fn spec_closing_marks(held: Seq<char>, inside: bool, show: bool) -> Seq<Mark> {
    spec_text_marks(held, inside, show) + (if inside {
        spec_toggle_marks(true, show)
    } else {
        Seq::empty()
    })
}

/// The marks of a whole text read from its start.
pub open spec fn spec_reading(text: Seq<char>, show: bool) -> Seq<Mark> {
    let scan = spec_scan(text, false, show);
    scan.marks + spec_closing_marks(scan.held, scan.inside, show)
}

/// The content marks among the given marks, in order.
pub open spec fn spec_said_only(marks: Seq<Mark>) -> Seq<Mark>
    decreases marks.len(),
{
    if marks.len() == 0 {
        Seq::empty()
    } else if marks[0] is Said {
        seq![marks[0]] + spec_said_only(marks.skip(1))
    } else {
        spec_said_only(marks.skip(1))
    }
}

/// Suppressing thoughts removes the thought marks and the delimiters and nothing else:
/// no text of a thought leaks into the content, and no content is lost.
pub proof fn law_suppressed_thoughts_do_not_leak(buf: Seq<char>, inside: bool)
    ensures
        spec_scan(buf, inside, false).marks == spec_said_only(spec_scan(buf, inside, true).marks),
        spec_scan(buf, inside, false).inside == spec_scan(buf, inside, true).inside,
        spec_scan(buf, inside, false).held == spec_scan(buf, inside, true).held,
    decreases buf.len(),
{
    let tag = spec_tag(inside);
    let shown = spec_scan(buf, inside, true);
    if buf.len() == 0 {
    } else if spec_starts_with(buf, tag) {
        let rest = buf.skip(tag.len() as int);
        law_suppressed_thoughts_do_not_leak(rest, !inside);
        let tail = spec_scan(rest, !inside, true).marks;
        assert(shown.marks.skip(1) =~= tail);
        assert(Seq::<Mark>::empty() + spec_scan(rest, !inside, false).marks =~= spec_scan(
            rest,
            !inside,
            false,
        ).marks);
    } else if spec_starts_with(tag, buf) {
    } else {
        let rest = buf.skip(1);
        law_suppressed_thoughts_do_not_leak(rest, inside);
        let tail = spec_scan(rest, inside, true).marks;
        let one = spec_char_marks(spec_char_at(buf, 0), inside, true);
        assert(one.len() == 1);
        assert(shown.marks == one + tail);
        assert(shown.marks[0] == one[0]);
        assert(shown.marks.skip(1) =~= tail);
        if inside {
            assert(Seq::<Mark>::empty() + spec_scan(rest, inside, false).marks =~= spec_scan(
                rest,
                inside,
                false,
            ).marks);
        }
    }
}

/// All chunks one after the other.
pub open spec fn spec_joined(chunks: Seq<Seq<char>>) -> Seq<char>
    decreases chunks.len(),
{
    if chunks.len() == 0 {
        Seq::empty()
    } else {
        spec_joined(chunks.drop_last()) + chunks.last()
    }
}

/// What feeding the chunks one by one yields, each chunk prefixed by what was held back
/// before it.
pub open spec fn spec_streamed(chunks: Seq<Seq<char>>, show: bool) -> Scan
    decreases chunks.len(),
{
    if chunks.len() == 0 {
        Scan { marks: Seq::empty(), inside: false, held: Seq::empty() }
    } else {
        let before = spec_streamed(chunks.drop_last(), show);
        let next = spec_scan(before.held + chunks.last(), before.inside, show);
        Scan { marks: before.marks + next.marks, inside: next.inside, held: next.held }
    }
}

/// However a text is cut into chunks, feeding the chunks one by one yields what scanning
/// the whole text yields.
pub proof fn law_chunks_do_not_matter(chunks: Seq<Seq<char>>, show: bool)
    ensures
        spec_streamed(chunks, show) == spec_scan(spec_joined(chunks), false, show),
    decreases chunks.len(),
{
    if chunks.len() != 0 {
        law_chunks_do_not_matter(chunks.drop_last(), show);
        law_scan_resumes(spec_joined(chunks.drop_last()), chunks.last(), false, show);
    }
}

/// The order of the events of one inference call: first `ProcessStart`, last `Complete`,
/// and between them content and whole thoughts, each thought a start, its text and a stop.
pub open spec fn spec_well_formed_inference(events: Seq<InferenceEventView>) -> bool {
    &&& events.len() >= 2
    &&& events[0] is ProcessStart
    &&& events.last() is Complete
    &&& spec_flow(events.subrange(1, events.len() - 1), false) == Some(false)
}

/// The order of the events of one embedding call: `ProcessStart`, one embedding,
/// `Complete`.
pub open spec fn spec_well_formed_embedding(events: Seq<InferenceEventView>) -> bool {
    &&& events.len() == 3
    &&& events[0] is ProcessStart
    &&& events[1] is Embedding
    &&& events[2] is Complete
}

/// Number of tokens an inference call generates at most when its configuration sets no
/// bound.
pub const DEFAULT_MAX_TOKENS: usize = 512;

/// What one sampling step of an engine gave.
#[derive(Debug, PartialEq, Eq)]
pub enum Token {
    /// A token with its text.
    Text(String),
    /// A token whose text could not be decoded.
    Unreadable,
    /// The end-of-sequence token.
    EndOfSequence,
}

/// The text a token stands for; `??` for one that could not be decoded.
pub open spec fn spec_token_text(token: Token) -> Seq<char> {
    match token {
        Token::Text(text) => text@,
        _ => seq!['?', '?'],
    }
}

/// The event stream of one inference call of a decoding engine: opened by
/// `ProcessStart`, fed token by token, and closed by `Complete` at the end-of-sequence
/// token or when the token budget is spent.
pub struct Generation {
    parser: ThoughtParser,
    produced: usize,
    limit: usize,
    finished: bool,
    emitted: Ghost<Seq<InferenceEventView>>,
}

impl Generation {
    /// The events emitted so far come in an order a reader can follow; once the stream is
    /// closed they are the events of a whole call.
    pub closed spec fn well_formed(&self) -> bool {
        let emitted = self.emitted@;
        &&& emitted.len() >= 1
        &&& emitted[0] is ProcessStart
        &&& if self.finished {
            spec_well_formed_inference(emitted)
        } else {
            spec_flow(emitted.skip(1), false) == Some(self.parser.inside() && self.parser.shows())
        }
    }

    /// Every event emitted so far, from `ProcessStart` on.
    pub closed spec fn emitted(&self) -> Seq<InferenceEventView> {
        self.emitted@
    }

    /// Whether the stream is closed.
    pub closed spec fn finished(&self) -> bool {
        self.finished
    }

    /// The number of tokens taken so far.
    pub closed spec fn produced(&self) -> nat {
        self.produced as nat
    }

    /// The number of tokens taken at most.
    pub closed spec fn limit(&self) -> nat {
        self.limit as nat
    }

    /// The splitter the text runs through.
    pub closed spec fn splitter(&self) -> ThoughtParser {
        self.parser
    }

    /// Opens the stream of a call: the events to emit first, and the state to feed.
    pub fn start(max_tokens: Option<usize>, show_thinking: bool) -> (opened: (
        Generation,
        Vec<InferenceEvent>,
    ))
        ensures
            opened.0.well_formed(),
            event_views(opened.1@) == seq![InferenceEventView::ProcessStart],
            opened.0.emitted() == event_views(opened.1@),
            !opened.0.finished(),
            opened.0.produced() == 0,
            opened.0.limit() == match max_tokens {
                Some(bound) => bound,
                None => DEFAULT_MAX_TOKENS,
            },
            opened.0.splitter().shows() == show_thinking,
            !opened.0.splitter().inside(),
            opened.0.splitter().held() == Seq::<char>::empty(),
    {
        let limit = match max_tokens {
            Some(bound) => bound,
            None => DEFAULT_MAX_TOKENS,
        };
        let mut events: Vec<InferenceEvent> = Vec::new();
        events.push(InferenceEvent::ProcessStart);
        let ghost emitted = seq![InferenceEventView::ProcessStart];
        proof {
            assert(event_views(events@) =~= emitted);
            assert(emitted.skip(1) =~= Seq::<InferenceEventView>::empty());
        }
        let generation = Generation {
            parser: ThoughtParser::new(show_thinking),
            produced: 0,
            limit,
            finished: false,
            emitted: Ghost(emitted),
        };
        (generation, events)
    }

    /// Whether the stream is closed.
    pub fn is_finished(&self) -> (finished: bool)
        ensures
            finished == self.finished(),
    {
        self.finished
    }

    /// Closes the stream now: what was held back is emitted as text, a thought still open
    /// is closed, and `Complete` ends the stream. A closed stream emits nothing more.
    pub fn close(&mut self) -> (events: Vec<InferenceEvent>)
        requires
            old(self).well_formed(),
        ensures
            final(self).well_formed(),
            final(self).finished(),
            final(self).emitted() == old(self).emitted() + event_views(events@),
            spec_well_formed_inference(final(self).emitted()),
            final(self).produced() == old(self).produced(),
            final(self).limit() == old(self).limit(),
            old(self).finished() ==> events@.len() == 0,
            !old(self).finished() ==> {
                &&& events@.len() >= 1
                &&& events@.last()@ is Complete
                &&& spec_marks(event_views(events@)) == spec_closing_marks(
                    old(self).splitter().held(),
                    old(self).splitter().inside(),
                    old(self).splitter().shows(),
                )
                &&& spec_compact(event_views(events@))
            },
    {
        if self.finished {
            let events: Vec<InferenceEvent> = Vec::new();
            assert(self.emitted@ + event_views(events@) =~= self.emitted@);
            return events;
        }
        let ghost before = self.emitted@;
        let ghost state = self.parser.inside() && self.parser.shows();
        let mut events = self.parser.finish();
        let ghost body = event_views(events@);
        events.push(InferenceEvent::Complete);
        proof {
            let all = event_views(events@);
            assert(all =~= body.push(InferenceEventView::Complete));
            lemma_marks_push(body, InferenceEventView::Complete);
            assert(spec_marks(body) + Seq::<Mark>::empty() =~= spec_marks(body));
            let total = before + all;
            assert(total.subrange(1, total.len() - 1) =~= before.skip(1) + body);
            lemma_flow_concat(before.skip(1), body, false);
            assert(spec_compact(all)) by {
                assert forall|i: int|
                    0 <= i < all.len() && spec_is_text(#[trigger] all[i]) implies spec_text_len(
                    all[i],
                ) > 0 by {
                    if i < body.len() {
                        assert(all[i] == body[i]);
                    }
                }
                assert forall|i: int, j: int|
                    0 <= i < all.len() && j == i + 1 && j < all.len() implies !(spec_is_text(
                    #[trigger] all[i],
                ) && spec_is_text(#[trigger] all[j])) by {
                    assert(all[i] == body[i]);
                    if j < body.len() {
                        assert(all[j] == body[j]);
                    }
                }
            }
            self.emitted = Ghost(total);
        }
        self.finished = true;
        events
    }

    /// Takes the next token. The end-of-sequence token closes the stream, and so does a
    /// token that comes when the budget is spent; any other token is split into events,
    /// and closes the stream if it is the last the budget allows.
    pub fn accept(&mut self, token: Token) -> (events: Vec<InferenceEvent>)
        requires
            old(self).well_formed(),
        ensures
            final(self).well_formed(),
            final(self).emitted() == old(self).emitted() + event_views(events@),
            final(self).finished() ==> spec_well_formed_inference(final(self).emitted()),
            final(self).limit() == old(self).limit(),
            old(self).finished() ==> events@.len() == 0 && final(self).finished(),
            !old(self).finished() ==> {
                let parser = old(self).splitter();
                let scan = spec_scan(
                    parser.held() + spec_token_text(token),
                    parser.inside(),
                    parser.shows(),
                );
                if token is EndOfSequence || old(self).produced() >= old(self).limit() {
                    &&& final(self).finished()
                    &&& final(self).produced() == old(self).produced()
                    &&& spec_marks(event_views(events@)) == spec_closing_marks(
                        parser.held(),
                        parser.inside(),
                        parser.shows(),
                    )
                } else if old(self).produced() + 1 == old(self).limit() {
                    &&& final(self).finished()
                    &&& final(self).produced() == old(self).produced() + 1
                    &&& spec_marks(event_views(events@)) == scan.marks + spec_closing_marks(
                        scan.held,
                        scan.inside,
                        parser.shows(),
                    )
                } else {
                    &&& !final(self).finished()
                    &&& final(self).produced() == old(self).produced() + 1
                    &&& spec_marks(event_views(events@)) == scan.marks
                    &&& final(self).splitter().inside() == scan.inside
                    &&& final(self).splitter().held() == scan.held
                    &&& final(self).splitter().shows() == parser.shows()
                }
            },
    {
        if self.finished || self.produced >= self.limit {
            return self.close();
        }
        let text = match token {
            Token::EndOfSequence => {
                return self.close();
            },
            Token::Text(text) => text,
            Token::Unreadable => {
                let mut marks: Vec<char> = Vec::new();
                marks.push('?');
                marks.push('?');
                assert(marks@ =~= seq!['?', '?']);
                text_of(&marks)
            },
        };
        let ghost before = self.emitted@;
        let mut events = self.parser.feed(text.as_str());
        let ghost fed = event_views(events@);
        proof {
            lemma_flow_concat(before.skip(1), fed, false);
            assert((before + fed).skip(1) =~= before.skip(1) + fed);
            self.emitted = Ghost(before + fed);
        }
        self.produced = self.produced + 1;
        if self.produced == self.limit {
            let mut closing = self.close();
            let ghost tail = event_views(closing@);
            events.append(&mut closing);
            proof {
                assert(event_views(events@) =~= fed + tail);
                lemma_marks_concat(fed, tail);
                assert(before + fed + tail =~= before + (fed + tail));
            }
        }
        events
    }
}

/// A text that is fed in chunks and then ended reads as the whole text does: the marks of
/// all chunks, followed by the marks of the end, are the marks of the text read in one
/// piece.
pub proof fn law_stream_reads_the_whole_text(chunks: Seq<Seq<char>>, show: bool)
    ensures
        ({
            let fed = spec_streamed(chunks, show);
            fed.marks + spec_closing_marks(fed.held, fed.inside, show) == spec_reading(
                spec_joined(chunks),
                show,
            )
        }),
{
    law_chunks_do_not_matter(chunks, show);
}

} // verus!
