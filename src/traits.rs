//! What every prompt offers: the resolution of its placeholders, its
//! finalization, and the selection of messages by pattern once finalized.

use crate::error::PromptError;
use crate::pattern::Pattern;
use crate::tag::{copy_tags, Tag, Tags};
use crate::template::{has_placeholder, is_identifier, placeholder, replace_all, same_text, valid_name};
use vstd::prelude::*;

verus! {

/// A message as text and tags.
pub type MessageView = (Seq<char>, Seq<Tag>);

/// The text and tags of each message in `v`.
pub open spec fn message_views(v: Seq<(String, Vec<Tag>)>) -> Seq<MessageView> {
    v.map_values(|m: (String, Vec<Tag>)| (m.0@, m.1@))
}

/// Some message of `msgs` holds a placeholder.
pub open spec fn any_placeholder(msgs: Seq<MessageView>) -> bool {
    exists|i: int| 0 <= i < msgs.len() && has_placeholder(#[trigger] msgs[i].0)
}

/// `msgs` with the variable `name` resolved to `value` in every message; the
/// tags and the order stay.
pub open spec fn resolve_messages(msgs: Seq<MessageView>, name: Seq<char>, value: Seq<char>) -> Seq<
    MessageView,
> {
    msgs.map_values(|m: MessageView| (replace_all(m.0, placeholder(name), value), m.1))
}

/// The name and value of each binding.
pub open spec fn bindings_view(b: Seq<(&str, &str)>) -> Seq<(Seq<char>, Seq<char>)> {
    b.map_values(|p: (&str, &str)| (p.0@, p.1@))
}

/// Every name bound in `bs` is a well-formed placeholder name.
pub open spec fn names_valid(bs: Seq<(Seq<char>, Seq<char>)>) -> bool {
    forall|k: int| 0 <= k < bs.len() ==> is_identifier(#[trigger] bs[k].0)
}

/// A later binding in `bs` binds the same name as the one at `k`.
pub open spec fn superseded(bs: Seq<(Seq<char>, Seq<char>)>, k: int) -> bool {
    exists|j: int| k < j < bs.len() && #[trigger] bs[j].0 == bs[k].0
}

/// `t` with the bindings of `bs` from index `k` on applied in order, each
/// name taking the value of its last binding.
pub open spec fn apply_bindings_from(t: Seq<char>, bs: Seq<(Seq<char>, Seq<char>)>, k: int) -> Seq<
    char,
>
    decreases bs.len() - k,
{
    if k < 0 || k >= bs.len() {
        t
    } else if superseded(bs, k) {
        apply_bindings_from(t, bs, k + 1)
    } else {
        apply_bindings_from(replace_all(t, placeholder(bs[k].0), bs[k].1), bs, k + 1)
    }
}

/// `msgs` with all the bindings of `bs` applied to every message.
pub open spec fn format_messages(msgs: Seq<MessageView>, bs: Seq<(Seq<char>, Seq<char>)>) -> Seq<
    MessageView,
> {
    msgs.map_values(|m: MessageView| (apply_bindings_from(m.0, bs, 0), m.1))
}

/// Whether a binding after index `k` binds the same name as the one at `k`.
fn is_superseded(bindings: &[(&str, &str)], k: usize) -> (r: bool)
    requires
        k < bindings@.len(),
    ensures
        r == superseded(bindings_view(bindings@), k as int),
{
    let ghost bs = bindings_view(bindings@);
    let n = bindings.len();
    let mut j: usize = k + 1;
    while j < n
        invariant
            k < j <= n,
            n == bindings@.len(),
            bs == bindings_view(bindings@),
            forall|m: int| k < m < j ==> bs[m].0 != bs[k as int].0,
        decreases n - j,
    {
        if same_text(bindings[j].0, bindings[k].0) {
            assert(bs[j as int].0 == bs[k as int].0);
            return true;
        }
        j = j + 1;
    }
    false
}

/// Whether every name bound in `bindings` is a well-formed placeholder name.
fn all_names_valid(bindings: &[(&str, &str)]) -> (r: bool)
    ensures
        r == names_valid(bindings_view(bindings@)),
{
    let ghost bs = bindings_view(bindings@);
    let n = bindings.len();
    let mut k: usize = 0;
    while k < n
        invariant
            k <= n,
            n == bindings@.len(),
            bs == bindings_view(bindings@),
            forall|m: int| 0 <= m < k ==> is_identifier(#[trigger] bs[m].0),
        decreases n - k,
    {
        assert(bs[k as int].0 == bindings@[k as int].0@);
        if !valid_name(bindings[k].0) {
            return false;
        }
        k = k + 1;
    }
    true
}

/// `cur` is `start` with the bindings before index `k` applied.
spec fn format_progress(
    cur: Seq<MessageView>,
    start: Seq<MessageView>,
    bs: Seq<(Seq<char>, Seq<char>)>,
    k: int,
) -> bool {
    &&& cur.len() == start.len()
    &&& forall|i: int|
        0 <= i < start.len() ==> #[trigger] cur[i].1 == start[i].1 && apply_bindings_from(
            cur[i].0,
            bs,
            k,
        ) == apply_bindings_from(start[i].0, bs, 0)
}

proof fn lemma_progress_skip(
    cur: Seq<MessageView>,
    start: Seq<MessageView>,
    bs: Seq<(Seq<char>, Seq<char>)>,
    k: int,
)
    requires
        format_progress(cur, start, bs, k),
        0 <= k < bs.len(),
        superseded(bs, k),
    ensures
        format_progress(cur, start, bs, k + 1),
{
    assert forall|i: int| 0 <= i < start.len() implies #[trigger] cur[i].1 == start[i].1
        && apply_bindings_from(cur[i].0, bs, k + 1) == apply_bindings_from(start[i].0, bs, 0) by {
        assert(cur[i].1 == start[i].1);
        assert(apply_bindings_from(cur[i].0, bs, k) == apply_bindings_from(start[i].0, bs, 0));
        assert(apply_bindings_from(cur[i].0, bs, k) == apply_bindings_from(cur[i].0, bs, k + 1));
    }
}

proof fn lemma_progress_resolve(
    before: Seq<MessageView>,
    cur: Seq<MessageView>,
    start: Seq<MessageView>,
    bs: Seq<(Seq<char>, Seq<char>)>,
    k: int,
)
    requires
        format_progress(before, start, bs, k),
        0 <= k < bs.len(),
        !superseded(bs, k),
        cur == resolve_messages(before, bs[k].0, bs[k].1),
    ensures
        format_progress(cur, start, bs, k + 1),
{
    assert forall|i: int| 0 <= i < start.len() implies #[trigger] cur[i].1 == start[i].1
        && apply_bindings_from(cur[i].0, bs, k + 1) == apply_bindings_from(start[i].0, bs, 0) by {
        assert(before[i].1 == start[i].1);
        assert(cur[i].0 == replace_all(before[i].0, placeholder(bs[k].0), bs[k].1));
    }
}

/// A prompt whose placeholders can be resolved and which can then be
/// finalized.
pub trait FinalizablePrompt: Sized {
    /// What the prompt becomes once finalized.
    type FinalizedPrompt: FinalizedPrompt;

    /// The messages of the prompt, in order.
    spec fn messages(&self) -> Seq<MessageView>;

    /// Whether a placeholder remains in any message.
    fn has_unresolved_vars(&self) -> (r: Result<bool, PromptError>)
        ensures
            r == Ok::<bool, PromptError>(any_placeholder(self.messages())),
    ;

    /// Replaces every occurrence of the placeholder for `var` with `value`.
    /// Fails, and changes nothing, where `var` is not a well-formed name.
    fn resolve_var(&mut self, var: &str, value: &str) -> (r: Result<(), PromptError>)
        ensures
            r is Ok <==> is_identifier(var@),
            r is Ok ==> final(self).messages() == resolve_messages(
                old(self).messages(),
                var@,
                value@,
            ),
            r is Err ==> r == Err::<(), PromptError>(PromptError::InvalidVariable)
                && final(self).messages() == old(self).messages(),
    ;

    /// Resolves each bound variable to its value; where a name is bound twice
    /// the last binding wins. Fails, and changes nothing, where a bound name
    /// is not well-formed.
    fn format(&mut self, bindings: &[(&str, &str)]) -> (r: Result<(), PromptError>)
        ensures
            r is Ok <==> names_valid(bindings_view(bindings@)),
            r is Ok ==> final(self).messages() == format_messages(
                old(self).messages(),
                bindings_view(bindings@),
            ),
            r is Err ==> r == Err::<(), PromptError>(PromptError::InvalidVariable)
                && final(self).messages() == old(self).messages(),
    {
        let ghost bs = bindings_view(bindings@);
        let ghost start = self.messages();
        if !all_names_valid(bindings) {
            return Err(PromptError::InvalidVariable);
        }
        let n = bindings.len();
        let mut k: usize = 0;
        proof {
            assert(self.messages() == start);
        }
        while k < n
            invariant
                k <= n,
                n == bindings@.len(),
                bs == bindings_view(bindings@),
                names_valid(bs),
                format_progress(self.messages(), start, bs, k as int),
            decreases n - k,
        {
            let ghost before = self.messages();
            if !is_superseded(bindings, k) {
                let (name, value) = bindings[k];
                assert(is_identifier(bs[k as int].0));
                let res = self.resolve_var(name, value);
                assert(res is Ok);
                proof {
                    lemma_progress_resolve(before, self.messages(), start, bs, k as int);
                }
            } else {
                proof {
                    lemma_progress_skip(self.messages(), start, bs, k as int);
                }
            }
            k = k + 1;
        }
        proof {
            assert forall|i: int| 0 <= i < start.len() implies #[trigger] self.messages()[i]
                == format_messages(start, bs)[i] by {
                assert(self.messages()[i].1 == start[i].1);
                assert(apply_bindings_from(self.messages()[i].0, bs, n as int) == self.messages()[i].0);
            }
            assert(self.messages() =~= format_messages(start, bs));
        }
        Ok(())
    }

    /// Finalizes the prompt. Fails where a placeholder remains.
    fn finalize(self) -> (r: Result<Self::FinalizedPrompt, PromptError>)
        ensures
            r is Ok <==> !any_placeholder(self.messages()),
            r matches Ok(f) ==> f.messages() == self.messages(),
            r is Err ==> r == Err::<Self::FinalizedPrompt, PromptError>(PromptError::UnresolvedVars),
    ;

    /// Applies `bindings` as `format` does, then finalizes the prompt.
    fn resolve(self, bindings: &[(&str, &str)]) -> (r: Result<Self::FinalizedPrompt, PromptError>)
        ensures
            !names_valid(bindings_view(bindings@)) ==> r == Err::<
                Self::FinalizedPrompt,
                PromptError,
            >(PromptError::InvalidVariable),
            names_valid(bindings_view(bindings@)) ==> (r is Ok <==> !any_placeholder(
                format_messages(self.messages(), bindings_view(bindings@)),
            )),
            names_valid(bindings_view(bindings@)) && r is Err ==> r == Err::<
                Self::FinalizedPrompt,
                PromptError,
            >(PromptError::UnresolvedVars),
            r matches Ok(f) ==> f.messages() == format_messages(
                self.messages(),
                bindings_view(bindings@),
            ),
    {
        let mut prompt = self;
        match prompt.format(bindings) {
            Ok(()) => prompt.finalize(),
            Err(e) => Err(e),
        }
    }
}

/// `tags` hold a pattern tag whose identifier is `p`.
pub open spec fn has_pattern_tag(tags: Seq<Tag>, p: Seq<char>) -> bool {
    exists|j: int| 0 <= j < tags.len() && (#[trigger] tags[j] matches Tag::Pattern(q) && q@ == p)
}

/// The messages of `msgs` tagged with the pattern `p`, in order.
pub open spec fn tagged_with(msgs: Seq<MessageView>, p: Seq<char>) -> Seq<MessageView>
    decreases msgs.len(),
{
    if msgs.len() == 0 {
        msgs
    } else if has_pattern_tag(msgs.last().1, p) {
        tagged_with(msgs.drop_last(), p).push(msgs.last())
    } else {
        tagged_with(msgs.drop_last(), p)
    }
}

/// The messages that the pattern `p` selects: those tagged with it, or all of
/// them where none is.
pub open spec fn select_by_pattern(msgs: Seq<MessageView>, p: Seq<char>) -> Seq<MessageView> {
    if tagged_with(msgs, p).len() == 0 {
        msgs
    } else {
        tagged_with(msgs, p)
    }
}

/// Whether `tags` hold a pattern tag that matches `pattern`.
pub fn tags_have_pattern(tags: &Vec<Tag>, pattern: &Pattern) -> (r: bool)
    ensures
        r == has_pattern_tag(tags@, pattern@),
{
    let n = tags.len();
    let mut j: usize = 0;
    while j < n
        invariant
            j <= n,
            n == tags@.len(),
            forall|m: int| 0 <= m < j ==> !(#[trigger] tags@[m] matches Tag::Pattern(q) && q@ == pattern@),
        decreases n - j,
    {
        match &tags[j] {
            Tag::Pattern(q) => {
                if q.matches(pattern) {
                    return true;
                }
            },
            Tag::Role(_) => {},
        }
        j = j + 1;
    }
    false
}

/// A copy of the message `m`.
pub fn copy_message(m: &(String, Tags)) -> (r: (String, Tags))
    ensures
        r.0@ == m.0@,
        r.1@ == m.1@,
{
    (m.0.clone(), copy_tags(&m.1))
}

/// The messages of `data` that `pattern` selects.
pub(crate) fn select_messages(data: &Vec<(String, Tags)>, pattern: &Pattern) -> (r: Vec<(String, Tags)>)
    ensures
        message_views(r@) == select_by_pattern(message_views(data@), pattern@),
{
    let ghost msgs = message_views(data@);
    let n = data.len();
    let mut out: Vec<(String, Tags)> = Vec::new();
    let mut i: usize = 0;
    while i < n
        invariant
            i <= n,
            n == data@.len(),
            msgs == message_views(data@),
            message_views(out@) == tagged_with(msgs.take(i as int), pattern@),
        decreases n - i,
    {
        proof {
            assert(msgs.take(i + 1).drop_last() =~= msgs.take(i as int));
            assert(msgs.take(i + 1).last() == msgs[i as int]);
        }
        if tags_have_pattern(&data[i].1, pattern) {
            let m = copy_message(&data[i]);
            out.push(m);
            proof {
                assert(message_views(out@) =~= tagged_with(msgs.take(i as int), pattern@).push(
                    msgs[i as int],
                ));
            }
        }
        i = i + 1;
    }
    proof {
        assert(msgs.take(n as int) =~= msgs);
    }
    if out.len() == 0 {
        let mut all: Vec<(String, Tags)> = Vec::new();
        let mut i: usize = 0;
        while i < n
            invariant
                i <= n,
                n == data@.len(),
                msgs == message_views(data@),
                message_views(all@) == msgs.take(i as int),
            decreases n - i,
        {
            let m = copy_message(&data[i]);
            all.push(m);
            proof {
                assert(message_views(all@) =~= msgs.take(i as int).push(msgs[i as int]));
                assert(msgs.take(i as int).push(msgs[i as int]) =~= msgs.take(i + 1));
            }
            i = i + 1;
        }
        proof {
            assert(msgs.take(n as int) =~= msgs);
        }
        all
    } else {
        out
    }
}

/// A prompt that has been finalized.
pub trait FinalizedPrompt: Sized {
    /// The messages of the prompt, in order.
    spec fn messages(&self) -> Seq<MessageView>;

    /// The messages tagged with `pattern`, in order; all messages where none
    /// is. Never fails.
    fn get_prompt_by_pattern(&self, pattern: &Pattern) -> (r: Result<Vec<(String, Tags)>, PromptError>)
        ensures
            r matches Ok(v) && message_views(v@) == select_by_pattern(self.messages(), pattern@),
    ;
}

/// Where no message is tagged with the pattern `p`, selecting by `p` gives
/// back every message, in order.
pub proof fn lemma_select_falls_back_to_all(msgs: Seq<MessageView>, p: Seq<char>)
    requires
        forall|i: int| 0 <= i < msgs.len() ==> !has_pattern_tag(#[trigger] msgs[i].1, p),
    ensures
        select_by_pattern(msgs, p) == msgs,
{
    lemma_none_tagged(msgs, p);
}

proof fn lemma_none_tagged(msgs: Seq<MessageView>, p: Seq<char>)
    requires
        forall|i: int| 0 <= i < msgs.len() ==> !has_pattern_tag(#[trigger] msgs[i].1, p),
    ensures
        tagged_with(msgs, p).len() == 0,
    decreases msgs.len(),
{
    if msgs.len() > 0 {
        let init = msgs.drop_last();
        assert forall|i: int| 0 <= i < init.len() implies !has_pattern_tag(#[trigger] init[i].1, p) by {
            assert(init[i] == msgs[i]);
        }
        lemma_none_tagged(init, p);
        assert(!has_pattern_tag(msgs[msgs.len() - 1].1, p));
    }
}

} // verus!
