use vstd::prelude::*;
use vstd::string::StringExecFns;
use crate::styles::TextStyle;
use crate::text::str_eq;

verus! {

/// One question/answer row of the list: the question (fixed after creation),
/// the editable answer, the four style descriptors it is rendered with, and
/// the two cached rendered strings derived from them.
#[derive(Debug, Clone)]
pub struct ListItem {
    pub regular_output: String,
    pub highlighted_output: String,
    pub question: String,
    pub answer: String,
    pub prefix_style: TextStyle,
    pub question_style: TextStyle,
    pub delimiter_style: TextStyle,
    pub answer_style: TextStyle,
}

impl ListItem {
    /// `out` is a rendering the item may cache for its plain painting: the
    /// concatenation of one rendering each of the question, the delimiter
    /// text and the current answer, in that order. Colorless fragments are
    /// pinned to their text; colored ones are whatever the backend returned.
    pub open spec fn regular_output_ok(self, out: Seq<char>) -> bool {
        exists|q: Seq<char>, d: Seq<char>, a: Seq<char>|
            {
                &&& out == q + d + a
                &&& #[trigger] self.question_style.console_string_ok(self.question@, false, q)
                &&& #[trigger] self.delimiter_style.console_string_ok(
                    self.delimiter_style.text@,
                    false,
                    d,
                )
                &&& #[trigger] self.answer_style.console_string_ok(self.answer@, false, a)
            }
    }

    /// `out` is a rendering the item may cache for its highlighted painting:
    /// the prefix is shown too, and every fragment uses its highlighted
    /// colors.
    pub open spec fn highlighted_output_ok(self, out: Seq<char>) -> bool {
        exists|p: Seq<char>, q: Seq<char>, d: Seq<char>, a: Seq<char>|
            {
                &&& out == p + q + d + a
                &&& #[trigger] self.prefix_style.console_string_ok(
                    self.prefix_style.text@,
                    true,
                    p,
                )
                &&& #[trigger] self.question_style.console_string_ok(self.question@, true, q)
                &&& #[trigger] self.delimiter_style.console_string_ok(
                    self.delimiter_style.text@,
                    true,
                    d,
                )
                &&& #[trigger] self.answer_style.console_string_ok(self.answer@, true, a)
            }
    }

    /// Both cached strings are renderings of the item's current answer and
    /// styles; stale caches are a correctness bug, so every mutation
    /// reestablishes this.
    pub open spec fn outputs_fresh(self) -> bool {
        &&& self.regular_output_ok(self.regular_output@)
        &&& self.highlighted_output_ok(self.highlighted_output@)
    }

    /// Question and styles are the same in both items; only the answer and
    /// the caches may differ.
    pub open spec fn same_identity(self, other: ListItem) -> bool {
        &&& self.question == other.question
        &&& self.prefix_style == other.prefix_style
        &&& self.question_style == other.question_style
        &&& self.delimiter_style == other.delimiter_style
        &&& self.answer_style == other.answer_style
    }

    /// The cached output chosen for painting.
    pub open spec fn spec_output(self, is_highlighted: bool) -> Seq<char> {
        if is_highlighted {
            self.highlighted_output@
        } else {
            self.regular_output@
        }
    }

    pub fn new(
        s: &str,
        s2: &str,
        s3: &str,
        s4: &str,
        ps: TextStyle,
        qs: TextStyle,
        ds: TextStyle,
        ans: TextStyle,
    ) -> (r: ListItem)
        ensures
            r.regular_output@ == s@,
            r.highlighted_output@ == s2@,
            r.question@ == s3@,
            r.answer@ == s4@,
            r.prefix_style == ps,
            r.question_style == qs,
            r.delimiter_style == ds,
            r.answer_style == ans,
    {
        ListItem {
            regular_output: s.to_owned(),
            highlighted_output: s2.to_owned(),
            question: s3.to_owned(),
            answer: s4.to_owned(),
            prefix_style: ps,
            question_style: qs,
            delimiter_style: ds,
            answer_style: ans,
        }
    }

    /// The cached rendering of the item: the highlighted one for the row the
    /// cursor is on, the regular one otherwise.
    pub fn get_output(&self, is_highlighted: bool) -> (r: &str)
        ensures
            r@ == self.spec_output(is_highlighted),
    {
        if is_highlighted {
            self.highlighted_output.as_str()
        } else {
            self.regular_output.as_str()
        }
    }

    /// Regenerates both cached strings from the current answer and styles:
    /// the single commit step every mutation path must end with. The caches
    /// become exactly the concatenations of the fragments the style
    /// renderers returned for the current field values.
    pub fn refresh_outputs(&mut self)
        ensures
            final(self).same_identity(*old(self)),
            final(self).answer == old(self).answer,
            final(self).outputs_fresh(),
    {
        let q_part = self.question_style.get_console_string(self.question.as_str(), false);
        let d_part = self.delimiter_style.get_console_string(
            self.delimiter_style.text.as_str(),
            false,
        );
        let a_part = self.answer_style.get_console_string(self.answer.as_str(), false);
        let ghost qv = q_part@;
        let ghost dv = d_part@;
        let ghost av = a_part@;
        let mut my_str = q_part;
        my_str.append(d_part.as_str());
        my_str.append(a_part.as_str());

        let hp_part = self.prefix_style.get_console_string(self.prefix_style.text.as_str(), true);
        let hq_part = self.question_style.get_console_string(self.question.as_str(), true);
        let hd_part = self.delimiter_style.get_console_string(
            self.delimiter_style.text.as_str(),
            true,
        );
        let ha_part = self.answer_style.get_console_string(self.answer.as_str(), true);
        let ghost hpv = hp_part@;
        let ghost hqv = hq_part@;
        let ghost hdv = hd_part@;
        let ghost hav = ha_part@;
        let mut my_str_highlighted = hp_part;
        my_str_highlighted.append(hq_part.as_str());
        my_str_highlighted.append(hd_part.as_str());
        my_str_highlighted.append(ha_part.as_str());

        self.regular_output = my_str;
        self.highlighted_output = my_str_highlighted;
        proof {
            assert(self.regular_output@ == qv + dv + av);
            assert(self.question_style.console_string_ok(self.question@, false, qv));
            assert(self.delimiter_style.console_string_ok(self.delimiter_style.text@, false, dv));
            assert(self.answer_style.console_string_ok(self.answer@, false, av));
            assert(self.regular_output_ok(self.regular_output@));
            assert(self.highlighted_output@ == hpv + hqv + hdv + hav);
            assert(self.prefix_style.console_string_ok(self.prefix_style.text@, true, hpv));
            assert(self.question_style.console_string_ok(self.question@, true, hqv));
            assert(self.delimiter_style.console_string_ok(self.delimiter_style.text@, true, hdv));
            assert(self.answer_style.console_string_ok(self.answer@, true, hav));
            assert(self.highlighted_output_ok(self.highlighted_output@));
        }
    }

    /// Appends one typed character to the answer and recommits the caches.
    pub fn insert_char(&mut self, c: char)
        ensures
            final(self).same_identity(*old(self)),
            final(self).answer@ == old(self).answer@.push(c),
            final(self).outputs_fresh(),
    {
        self.answer.push(c);
        self.refresh_outputs();
    }

    /// Removes the last character of the answer, if there is one, and
    /// recommits the caches; an empty answer stays empty.
    pub fn backspace(&mut self)
        ensures
            final(self).same_identity(*old(self)),
            old(self).answer@.len() == 0 ==> final(self).answer@ == old(self).answer@,
            old(self).answer@.len() > 0 ==> final(self).answer@ == old(self).answer@.drop_last(),
            final(self).outputs_fresh(),
    {
        self.answer.pop();
        self.refresh_outputs();
    }
}

/// Editing round trip: inserting any character into any answer and then
/// backspacing returns the answer to exactly what it was. (Backspace on an
/// empty answer leaving it empty, with no error, is part of `backspace`'s
/// own contract.)
pub proof fn lemma_edit_round_trip(answer: Seq<char>, c: char)
    ensures
        answer.push(c).drop_last() == answer,
        answer.push(c).len() > 0,
{
    assert(answer.push(c).drop_last() =~= answer);
}

/// The item built for one (question, default answer) pair under the given
/// (prefix, question, delimiter, answer) styles, with fresh caches.
pub open spec fn item_from_pair(
    item: ListItem,
    question: Seq<char>,
    answer: Seq<char>,
    styles: (TextStyle, TextStyle, TextStyle, TextStyle),
) -> bool {
    &&& item.question@ == question
    &&& item.answer@ == answer
    &&& item.prefix_style == styles.0
    &&& item.question_style == styles.1
    &&& item.delimiter_style == styles.2
    &&& item.answer_style == styles.3
    &&& item.outputs_fresh()
}

/// Builds the session's list from the (question, default answer) pairs the
/// caller extracted from its command-line matches, one item per pair, in
/// order, each with freshly rendered caches.
pub fn get_list_items_from_matches(
    pairs: &Vec<(String, String)>,
    style_objs: &(TextStyle, TextStyle, TextStyle, TextStyle),
) -> (r: Vec<ListItem>)
    ensures
        r@.len() == pairs@.len(),
        forall|i: int|
            0 <= i < pairs@.len() ==> item_from_pair(r@[i], pairs@[i].0@, pairs@[i].1@, *style_objs),
{
    let mut my_vec: Vec<ListItem> = Vec::new();
    let mut i: usize = 0;
    while i < pairs.len()
        invariant
            i <= pairs@.len(),
            my_vec@.len() == i,
            forall|j: int|
                0 <= j < i ==> item_from_pair(
                    my_vec@[j],
                    pairs@[j].0@,
                    pairs@[j].1@,
                    *style_objs,
                ),
        decreases pairs@.len() - i,
    {
        let pair = &pairs[i];
        let mut my_question = ListItem::new(
            "",
            "",
            pair.0.as_str(),
            pair.1.as_str(),
            style_objs.0.duplicate(),
            style_objs.1.duplicate(),
            style_objs.2.duplicate(),
            style_objs.3.duplicate(),
        );
        my_question.refresh_outputs();
        my_vec.push(my_question);
        i = i + 1;
    }
    my_vec
}

/// The answer of the last list item whose question is `question`, if any;
/// when several items share a question the last one wins.
pub open spec fn last_answer_for(list: Seq<ListItem>, question: Seq<char>) -> Option<String>
    decreases list.len(),
{
    if list.len() == 0 {
        Option::None
    } else if list.last().question@ == question {
        Option::Some(list.last().answer)
    } else {
        last_answer_for(list.drop_last(), question)
    }
}

/// Writes the edited answers back into the caller's (name, values) pairs:
/// for every pair whose name matches some item's question, the first value
/// becomes that item's answer; every other pair is kept unchanged.
pub fn replace_matches_from_list_items(
    matches: &Vec<(String, Vec<String>)>,
    list: &Vec<ListItem>,
) -> (r: Vec<(String, Vec<String>)>)
    requires
        forall|i: int| 0 <= i < matches@.len() ==> matches@[i].1@.len() >= 1,
    ensures
        r@.len() == matches@.len(),
        forall|i: int|
            0 <= i < matches@.len() ==> r@[i].0 == matches@[i].0 && r@[i].1@ == (
            match last_answer_for(list@, matches@[i].0@) {
                Option::Some(ans) => matches@[i].1@.update(0, ans),
                Option::None => matches@[i].1@,
            }),
{
    let mut out: Vec<(String, Vec<String>)> = Vec::new();
    let mut i: usize = 0;
    while i < matches.len()
        invariant
            i <= matches@.len(),
            out@.len() == i,
            forall|k: int| 0 <= k < matches@.len() ==> matches@[k].1@.len() >= 1,
            forall|k: int|
                0 <= k < i ==> out@[k].0 == matches@[k].0 && out@[k].1@ == (
                match last_answer_for(list@, matches@[k].0@) {
                    Option::Some(ans) => matches@[k].1@.update(0, ans),
                    Option::None => matches@[k].1@,
                }),
        decreases matches@.len() - i,
    {
        let pair = &matches[i];
        let mut has: bool = false;
        let mut idx_found: usize = 0;
        let mut j: usize = 0;
        while j < list.len()
            invariant
                j <= list@.len(),
                has == (last_answer_for(list@.take(j as int), pair.0@) is Some),
                has ==> idx_found < j && last_answer_for(list@.take(j as int), pair.0@) == Option::Some(
                    list@[idx_found as int].answer,
                ),
            decreases list@.len() - j,
        {
            proof {
                assert(list@.take(j + 1).drop_last() =~= list@.take(j as int));
                assert(list@.take(j + 1).last() == list@[j as int]);
            }
            if str_eq(list[j].question.as_str(), pair.0.as_str()) {
                has = true;
                idx_found = j;
            }
            j = j + 1;
        }
        proof {
            assert(list@.take(list@.len() as int) =~= list@);
        }
        let mut vals: Vec<String> = Vec::new();
        let mut k: usize = 0;
        while k < pair.1.len()
            invariant
                k <= pair.1@.len(),
                vals@.len() == k,
                has ==> idx_found < list@.len(),
                forall|m: int|
                    0 <= m < k ==> vals@[m] == (if has && m == 0 {
                        list@[idx_found as int].answer
                    } else {
                        pair.1@[m]
                    }),
            decreases pair.1@.len() - k,
        {
            if has && k == 0 {
                vals.push(list[idx_found].answer.clone());
            } else {
                vals.push(pair.1[k].clone());
            }
            k = k + 1;
        }
        proof {
            if has {
                assert(vals@ =~= pair.1@.update(0, list@[idx_found as int].answer));
            } else {
                assert(vals@ =~= pair.1@);
            }
        }
        out.push((pair.0.clone(), vals));
        i = i + 1;
    }
    out
}

} // verus!
