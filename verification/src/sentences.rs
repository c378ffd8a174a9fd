//! Cuts a stream of tokens into sentences.

use crate::text;
use vstd::prelude::*;

verus! {

/// The number of bytes that a text takes.
pub open spec fn byte_count(s: Seq<char>) -> nat {
    vstd::utf8::encode_utf8(s).len()
}

/// The characters that end a sentence.
pub open spec fn sentence_ends() -> Seq<char> {
    seq!['.', '?', '!']
}

/// Whether a buffer is complete as it stands: it has grown past 300 bytes, or
/// past 200 with white space at its end, or past 15 with white space at its end
/// and a sentence-ending character before that.
pub open spec fn is_complete(buffer: Seq<char>) -> bool {
    ||| byte_count(buffer) > 300
    ||| byte_count(buffer) > 200 && text::is_space(buffer.last())
    ||| {
        &&& byte_count(buffer) > 15
        &&& buffer.len() >= 2
        &&& sentence_ends().contains(buffer[buffer.len() - 2])
        &&& text::is_space(buffer.last())
    }
}

/// The sentence that a buffer holds, as a list of none or one.
pub open spec fn sentence_of(buffer: Seq<char>) -> Seq<Seq<char>> {
    if text::trimmed(buffer).len() > 0 {
        seq![text::trimmed(buffer)]
    } else {
        seq![]
    }
}

/// What is in the buffer after the characters of `token` were added to it one by
/// one, and the sentences that they completed.
pub open spec fn fed(buffer: Seq<char>, token: Seq<char>) -> (Seq<char>, Seq<Seq<char>>)
    decreases token.len(),
{
    if token.len() == 0 {
        (buffer, seq![])
    } else {
        let (before, sentences) = fed(buffer, token.drop_last());
        let grown = before.push(token.last());
        if is_complete(grown) {
            (seq![], sentences + sentence_of(grown))
        } else {
            (grown, sentences)
        }
    }
}

/// The character before the last one.
pub fn get_second_to_last_char(s: &str) -> (r: Option<char>)
    ensures
        r == (if s@.len() >= 2 {
            Some(s@[s@.len() - 2])
        } else {
            None
        }),
{
    let chars = text::chars_of(s);
    if chars.len() >= 2 {
        Some(chars[chars.len() - 2])
    } else {
        None
    }
}

/// Accumulates tokens into sentences.
pub struct SentenceAccumulator {
    buffer: String,
    sentence_end_chars: Vec<char>,
}

impl View for SentenceAccumulator {
    type V = Seq<char>;

    /// The text that no sentence has taken yet.
    closed spec fn view(&self) -> Seq<char> {
        self.buffer@
    }
}

impl SentenceAccumulator {
    /// The accumulator cuts at the sentence-ending characters and never holds
    /// more than 300 bytes.
    pub closed spec fn well_formed(&self) -> bool {
        &&& self.sentence_end_chars@ == sentence_ends()
        &&& byte_count(self.buffer@) <= 300
    }

    /// A well-formed accumulator holds at most 300 bytes.
    pub proof fn holds_at_most(&self)
        requires
            self.well_formed(),
        ensures
            byte_count(self@) <= 300,
    {
    }

    /// An accumulator that holds nothing.
    pub fn new() -> (r: Self)
        ensures
            r.well_formed(),
            r@ == Seq::<char>::empty(),
    {
        let mut sentence_end_chars: Vec<char> = Vec::new();
        sentence_end_chars.push('.');
        sentence_end_chars.push('?');
        sentence_end_chars.push('!');
        assert(sentence_end_chars@ =~= sentence_ends());
        SentenceAccumulator { buffer: String::new(), sentence_end_chars }
    }

    fn ends_sentence(&self, c: char) -> (r: bool)
        requires
            self.well_formed(),
        ensures
            r == sentence_ends().contains(c),
    {
        let mut i: usize = 0;
        while i < self.sentence_end_chars.len()
            invariant
                i <= self.sentence_end_chars.len(),
                self.sentence_end_chars@ == sentence_ends(),
                forall|k: int| 0 <= k < i ==> self.sentence_end_chars@[k] != c,
            decreases self.sentence_end_chars.len() - i,
        {
            if self.sentence_end_chars[i] == c {
                assert(sentence_ends()[i as int] == c);
                return true;
            }
            i = i + 1;
        }
        false
    }

    /// Adds a token to the sentence accumulator.
    /// Returns the sentences that have been completed.
    pub fn add_token(&mut self, token: &str) -> (r: Vec<String>)
        requires
            old(self).well_formed(),
        ensures
            final(self).well_formed(),
            (final(self)@, text::texts(r@)) == fed(old(self)@, token@),
    {
        let chars = text::chars_of(token);
        let mut sentences: Vec<String> = Vec::new();
        let mut i: usize = 0;
        proof {
            assert(token@.take(0) =~= Seq::<char>::empty());
            assert(text::texts(sentences@) =~= Seq::<Seq<char>>::empty());
        }
        while i < chars.len()
            invariant
                i <= chars.len(),
                chars@ == token@,
                self.well_formed(),
                (self@, text::texts(sentences@)) == fed(old(self)@, token@.take(i as int)),
            decreases chars.len() - i,
        {
            let ghost before = self.buffer@;
            let ghost done = sentences@;
            let c = chars[i];
            self.buffer.push(c);
            let ghost grown = self.buffer@;
            proof {
                byte_count_push(before, c);
                assert(token@.take(i + 1).drop_last() =~= token@.take(i as int));
                assert(token@.take(i + 1).last() == c);
            }
            let len: usize = self.buffer.as_str().len();
            let mut complete = false;
            if len > 300 {
                complete = true;
            } else if text::is_whitespace(c) {
                if len > 200 {
                    complete = true;
                } else if len > 15 {
                    if let Some(second_to_last_char) = get_second_to_last_char(
                        self.buffer.as_str(),
                    ) {
                        complete = self.ends_sentence(second_to_last_char);
                    }
                }
            }
            assert(complete == is_complete(grown));
            if complete {
                let sentence = text::trim(self.buffer.as_str());
                if !sentence.as_str().is_empty() {
                    sentences.push(sentence);
                    assert(text::texts(sentences@) =~= text::texts(done) + sentence_of(grown));
                } else {
                    assert(text::texts(sentences@) =~= text::texts(done) + sentence_of(grown));
                }
                self.buffer = String::new();
                assert(self@ =~= Seq::<char>::empty());
            }
            i = i + 1;
        }
        assert(token@.take(token@.len() as int) =~= token@);
        sentences
    }

    /// Called at the end of the conversation to process the last sentence.
    /// This is necessary since the last character may not be whitespace preceded
    /// by a sentence ending character.
    pub fn complete_sentence(&mut self) -> (r: Option<String>)
        requires
            old(self).well_formed(),
        ensures
            final(self).well_formed(),
            final(self)@ == Seq::<char>::empty(),
            r matches Some(s) ==> s@ == text::trimmed(old(self)@),
            r is Some <==> text::trimmed(old(self)@).len() > 0,
    {
        let sentence = text::trim(self.buffer.as_str());
        self.buffer = String::new();
        if !sentence.as_str().is_empty() {
            Some(sentence)
        } else {
            None
        }
    }

    /// Forgets the text that no sentence has taken yet.
    pub fn clear_buffer(&mut self)
        requires
            old(self).well_formed(),
        ensures
            final(self).well_formed(),
            final(self)@ == Seq::<char>::empty(),
    {
        self.buffer = String::new();
    }
}

/// A character takes from one to four bytes.
proof fn byte_count_push(s: Seq<char>, c: char)
    ensures
        byte_count(s) + 1 <= byte_count(s.push(c)) <= byte_count(s) + 4,
    decreases s.len(),
{
    if s.len() == 0 {
        let t = s.push(c);
        assert(t.drop_first() =~= Seq::<char>::empty());
        assert(vstd::utf8::encode_utf8(t) == vstd::utf8::encode_scalar(c as u32) + vstd::utf8::encode_utf8(t.drop_first()));
    } else {
        byte_count_push(s.drop_first(), c);
        assert(s.push(c).drop_first() =~= s.drop_first().push(c));
    }
}

// ---------------------------------------------------------------- laws

/// Two tokens give what their concatenation gives: how the stream is cut into
/// tokens makes no difference to the sentences.
pub proof fn tokens_join(buffer: Seq<char>, first: Seq<char>, second: Seq<char>)
    ensures
        ({
            let (middle, one) = fed(buffer, first);
            let (end, two) = fed(middle, second);
            fed(buffer, first + second) == (end, one + two)
        }),
    decreases second.len(),
{
    let (middle, one) = fed(buffer, first);
    if second.len() == 0 {
        assert(first + second =~= first);
        assert(one + Seq::<Seq<char>>::empty() =~= one);
    } else {
        tokens_join(buffer, first, second.drop_last());
        assert((first + second).drop_last() =~= first + second.drop_last());
        assert((first + second).last() == second.last());
        let (before, two) = fed(middle, second.drop_last());
        let grown = before.push(second.last());
        if is_complete(grown) {
            assert((one + two) + sentence_of(grown) =~= one + (two + sentence_of(grown)));
        }
    }
}

/// The characters of a text that are not white space.
pub open spec fn visible(s: Seq<char>) -> Seq<char> {
    s.filter(|c: char| !text::is_space(c))
}

/// Nothing that can be seen is lost, added or moved: the sentences and what is
/// left in the buffer hold, in order, the visible characters of what was in the
/// buffer and of the token.
pub proof fn nothing_is_lost(buffer: Seq<char>, token: Seq<char>)
    ensures
        ({
            let (rest, sentences) = fed(buffer, token);
            visible(sentences.flatten()) + visible(rest) == visible(buffer + token)
        }),
    decreases token.len(),
{
    let pred = |c: char| !text::is_space(c);
    if token.len() == 0 {
        assert(buffer + token =~= buffer);
        reveal_with_fuel(Seq::flatten, 1);
        assert(fed(buffer, token).1.flatten() =~= Seq::<char>::empty());
        reveal_with_fuel(Seq::filter, 1);
        assert(visible(Seq::<char>::empty()) =~= Seq::<char>::empty());
        assert(Seq::<char>::empty() + visible(buffer) =~= visible(buffer));
    } else {
        nothing_is_lost(buffer, token.drop_last());
        let (before, sentences) = fed(buffer, token.drop_last());
        let c = token.last();
        let grown = before.push(c);
        assert(buffer + token =~= (buffer + token.drop_last()).push(c));
        visible_push(buffer + token.drop_last(), c);
        visible_push(before, c);
        let shown = if text::is_space(c) {
            Seq::<char>::empty()
        } else {
            seq![c]
        };
        assert(visible(buffer + token) =~= visible(sentences.flatten()) + visible(grown)) by {
            assert((visible(sentences.flatten()) + visible(before)) + shown =~= visible(
                sentences.flatten(),
            ) + (visible(before) + shown));
        }
        if is_complete(grown) {
            visible_trimmed(grown);
            sentence_flattens(sentences, grown);
            Seq::filter_distributes_over_add(sentences.flatten(), text::trimmed(grown), pred);
            reveal_with_fuel(Seq::filter, 1);
            assert(visible(Seq::<char>::empty()) =~= Seq::<char>::empty());
            let all = visible((sentences + sentence_of(grown)).flatten());
            assert(all + Seq::<char>::empty() =~= all);
        }
    }
}

proof fn sentence_flattens(sentences: Seq<Seq<char>>, grown: Seq<char>)
    ensures
        (sentences + sentence_of(grown)).flatten() == sentences.flatten() + text::trimmed(grown),
{
    if text::trimmed(grown).len() > 0 {
        assert(sentences + sentence_of(grown) =~= sentences.push(text::trimmed(grown)));
        sentences.lemma_flatten_push(text::trimmed(grown));
    } else {
        assert(sentences + sentence_of(grown) =~= sentences);
        assert(sentences.flatten() + text::trimmed(grown) =~= sentences.flatten());
    }
}

proof fn visible_push(s: Seq<char>, c: char)
    ensures
        visible(s.push(c)) == visible(s) + (if text::is_space(c) {
            Seq::<char>::empty()
        } else {
            seq![c]
        }),
{
    reveal_with_fuel(Seq::filter, 1);
    assert(s.push(c).drop_last() =~= s);
    if text::is_space(c) {
        assert(visible(s) + Seq::<char>::empty() =~= visible(s));
    } else {
        assert(visible(s).push(c) =~= visible(s) + seq![c]);
    }
}

proof fn visible_trimmed(s: Seq<char>)
    ensures
        visible(text::trimmed(s)) == visible(s),
{
    visible_trim_start(s);
    visible_trim_end(text::trim_start(s));
}

proof fn visible_trim_end(s: Seq<char>)
    ensures
        visible(text::trim_end(s)) == visible(s),
    decreases s.len(),
{
    if s.len() > 0 && text::is_space(s.last()) {
        visible_trim_end(s.drop_last());
        visible_push(s.drop_last(), s.last());
        assert(s.drop_last().push(s.last()) =~= s);
        assert(visible(s.drop_last()) + Seq::<char>::empty() =~= visible(s.drop_last()));
    }
}

proof fn visible_trim_start(s: Seq<char>)
    ensures
        visible(text::trim_start(s)) == visible(s),
    decreases s.len(),
{
    if s.len() > 0 && text::is_space(s[0]) {
        visible_trim_start(s.drop_first());
        let pred = |c: char| !text::is_space(c);
        Seq::filter_distributes_over_add(seq![s[0]], s.drop_first(), pred);
        assert(s =~= seq![s[0]] + s.drop_first());
        visible_push(Seq::<char>::empty(), s[0]);
        assert(Seq::<char>::empty().push(s[0]) =~= seq![s[0]]);
        reveal_with_fuel(Seq::filter, 1);
        assert(visible(Seq::<char>::empty()) =~= Seq::<char>::empty());
        assert(visible(seq![s[0]]) =~= Seq::<char>::empty());
        assert(Seq::<char>::empty() + visible(s.drop_first()) =~= visible(s.drop_first()));
    }
}

/// Every sentence has something to say, and no white space at its ends.
pub proof fn sentences_are_trimmed(buffer: Seq<char>, token: Seq<char>, i: int)
    requires
        0 <= i < fed(buffer, token).1.len(),
    ensures
        ({
            let sentence = fed(buffer, token).1[i];
            sentence.len() > 0 && !text::is_space(sentence[0]) && !text::is_space(sentence.last())
        }),
    decreases token.len(),
{
    if token.len() > 0 {
        let (before, sentences) = fed(buffer, token.drop_last());
        if i < sentences.len() {
            sentences_are_trimmed(buffer, token.drop_last(), i);
        } else {
            trimmed_ends(before.push(token.last()));
        }
    }
}

proof fn trimmed_ends(s: Seq<char>)
    ensures
        text::trimmed(s).len() > 0 ==> !text::is_space(text::trimmed(s)[0]) && !text::is_space(text::trimmed(s).last()),
{
    trim_start_first(s);
    trim_end_last(text::trim_start(s));
}

proof fn trim_start_first(s: Seq<char>)
    ensures
        text::trim_start(s).len() > 0 ==> !text::is_space(text::trim_start(s)[0]),
    decreases s.len(),
{
    if s.len() > 0 && text::is_space(s[0]) {
        trim_start_first(s.drop_first());
    }
}

proof fn trim_end_last(s: Seq<char>)
    ensures
        text::trim_end(s).len() > 0 ==> text::trim_end(s)[0] == s[0] && !text::is_space(text::trim_end(s).last()),
    decreases s.len(),
{
    if s.len() > 0 && text::is_space(s.last()) {
        trim_end_last(s.drop_last());
    }
}

/// What stays in the buffer never takes more than 300 bytes.
pub proof fn buffer_stays_small(buffer: Seq<char>, token: Seq<char>)
    requires
        byte_count(buffer) <= 300,
    ensures
        byte_count(fed(buffer, token).0) <= 300,
    decreases token.len(),
{
    if token.len() > 0 {
        buffer_stays_small(buffer, token.drop_last());
    }
}

/// The number of bytes of a text, and what a character adds to it.
pub proof fn bytes_add_up(s: Seq<char>, c: char)
    ensures
        byte_count(s) == vstd::utf8::encode_utf8(s).len(),
        byte_count(s) < byte_count(s.push(c)) <= byte_count(s) + 4,
{
    byte_count_push(s, c);
}

proof fn fed_one_more(buffer: Seq<char>, token: Seq<char>, c: char)
    ensures
        ({
            let (rest, sentences) = fed(buffer, token);
            fed(buffer, token.push(c)) == (if is_complete(rest.push(c)) {
                (seq![], sentences + sentence_of(rest.push(c)))
            } else {
                (rest.push(c), sentences)
            })
        }),
{
    assert(token.push(c).drop_last() =~= token);
    assert(token.push(c).last() == c);
}

/// A full stop, a question mark or an exclamation mark ends a sentence once white space
/// follows and there are more than 15 bytes: the sentence is given out, up to and with the
/// mark, and nothing of it stays.
pub proof fn marks_end_sentences(buffer: Seq<char>, token: Seq<char>, mark: char, w: char)
    requires
        mark == '.' || mark == '?' || mark == '!',
        text::white_space().contains(w),
        ({
            let rest = fed(buffer, token).0;
            rest.len() > 0 && rest.last() == mark && vstd::utf8::encode_utf8(rest.push(w)).len()
                > 15
        }),
    ensures
        ({
            let (rest, sentences) = fed(buffer, token);
            let (left, given) = fed(buffer, token.push(w));
            &&& left.len() == 0
            &&& given.len() == sentences.len() + 1
            &&& given.drop_last() == sentences
            &&& given.last().last() == mark
            &&& given.last() == text::trim_start(rest)
        }),
{
    let (rest, sentences) = fed(buffer, token);
    let grown = rest.push(w);
    fed_one_more(buffer, token, w);
    text::white_space_is_listed(w);
    text::white_space_is_listed(mark);
    not_white_space(mark);
    assert(grown[grown.len() - 2] == mark);
    assert(sentence_ends()[0] == '.' && sentence_ends()[1] == '?' && sentence_ends()[2] == '!');
    assert(is_complete(grown));
    trim_up_to(rest, w);
    assert(text::trimmed(grown) == text::trim_start(rest));
    trim_start_keeps_last(rest);
    let (left, given) = fed(buffer, token.push(w));
    assert(given =~= sentences.push(text::trim_start(rest)));
    assert(given.drop_last() =~= sentences);
}

proof fn not_white_space(mark: char)
    requires
        mark == '.' || mark == '?' || mark == '!',
    ensures
        !text::is_space(mark),
{
}

proof fn trim_start_keeps_last(s: Seq<char>)
    requires
        s.len() > 0,
        !text::is_space(s.last()),
    ensures
        text::trim_start(s).len() > 0,
        text::trim_start(s).last() == s.last(),
    decreases s.len(),
{
    if text::is_space(s[0]) {
        trim_start_keeps_last(s.drop_first());
    }
}

proof fn trim_up_to(s: Seq<char>, w: char)
    requires
        s.len() > 0,
        !text::is_space(s.last()),
        text::is_space(w),
    ensures
        text::trimmed(s.push(w)) == text::trim_start(s),
    decreases s.len(),
{
    if text::is_space(s[0]) {
        assert(s.push(w).drop_first() =~= s.drop_first().push(w));
        trim_up_to(s.drop_first(), w);
    } else {
        assert(text::trim_start(s.push(w)) == s.push(w));
        assert(s.push(w).last() == w);
        assert(s.push(w).drop_last() =~= s);
        assert(text::trim_end(s.push(w)) == text::trim_end(s));
        assert(text::trim_end(s) == s);
    }
}

/// A character that does not end a sentence is kept, and gives none: one that is no white
/// space below 300 bytes, one that follows on no mark below 200, or any up to 15.
pub proof fn nothing_else_ends_sentences(buffer: Seq<char>, token: Seq<char>, c: char)
    requires
        ({
            let rest = fed(buffer, token).0;
            let bytes = vstd::utf8::encode_utf8(rest.push(c)).len();
            let after_mark = rest.len() > 0 && (rest.last() == '.' || rest.last() == '?'
                || rest.last() == '!');
            ||| bytes <= 15
            ||| bytes <= 200 && !after_mark
            ||| bytes <= 300 && !text::white_space().contains(c)
        }),
    ensures
        fed(buffer, token.push(c)) == (fed(buffer, token).0.push(c), fed(buffer, token).1),
{
    let (rest, sentences) = fed(buffer, token);
    let grown = rest.push(c);
    fed_one_more(buffer, token, c);
    text::white_space_is_listed(c);
    if rest.len() > 0 {
        assert(grown[grown.len() - 2] == rest.last());
        let ends = sentence_ends();
        if ends.contains(rest.last()) {
            let k = choose|k: int| 0 <= k < ends.len() && ends[k] == rest.last();
            assert(k == 0 || k == 1 || k == 2);
        }
    }
}

/// A text that grows past 200 bytes is given out at the next white space, and one that grows
/// past 300 at once.
pub proof fn long_texts_are_given_out(buffer: Seq<char>, token: Seq<char>, c: char)
    requires
        ({
            let bytes = vstd::utf8::encode_utf8(fed(buffer, token).0.push(c)).len();
            bytes > 300 || bytes > 200 && text::white_space().contains(c)
        }),
    ensures
        fed(buffer, token.push(c)).0.len() == 0,
        fed(buffer, token.push(c)).1 == fed(buffer, token).1 + sentence_of(
            fed(buffer, token).0.push(c),
        ),
{
    fed_one_more(buffer, token, c);
    text::white_space_is_listed(c);
}

/// Whether a text holds a sentence that is long enough to be given out: a mark with white
/// space after it, with more than 15 bytes up to there.
pub open spec fn holds_sentence(s: Seq<char>) -> bool {
    exists|k: int|
        0 < k < s.len() && #[trigger] text::white_space().contains(s[k]) && (s[k - 1] == '.' || s[k
            - 1] == '?' || s[k - 1] == '!') && vstd::utf8::encode_utf8(s.take(k + 1)).len() > 15
}

/// A sentence that is long enough to be given out never stays in the buffer.
pub proof fn no_sentence_stays(buffer: Seq<char>, token: Seq<char>)
    requires
        !holds_sentence(buffer),
    ensures
        !holds_sentence(fed(buffer, token).0),
    decreases token.len(),
{
    if token.len() > 0 {
        let before = token.drop_last();
        let c = token.last();
        no_sentence_stays(buffer, before);
        let rest = fed(buffer, before).0;
        let left = fed(buffer, token).0;
        assert(before.push(c) =~= token);
        fed_one_more(buffer, before, c);
        if holds_sentence(left) {
            let k = choose|k: int|
                0 < k < left.len() && #[trigger] text::white_space().contains(left[k]) && (left[k
                    - 1] == '.' || left[k - 1] == '?' || left[k - 1] == '!')
                    && vstd::utf8::encode_utf8(left.take(k + 1)).len() > 15;
            assert(left == rest.push(c));
            if k < rest.len() {
                assert(left[k] == rest[k] && left[k - 1] == rest[k - 1]);
                assert(left.take(k + 1) =~= rest.take(k + 1));
                assert(text::white_space().contains(rest[k]));
                assert(holds_sentence(rest));
            } else {
                assert(left.take(k + 1) =~= left);
                assert(rest.last() == left[k - 1]);
                marks_end_sentences(buffer, before, rest.last(), c);
            }
        }
    }
}

} // verus!
