//! Prompts: a single message or an ordered list of tagged messages, with
//! placeholders to resolve before the prompt is finalized.

use crate::error::PromptError;
use crate::pattern::Pattern;
use crate::tag::{copy_tags, first_role, role_name, role_of, Role, Tag, Tags};
use crate::template::{
    chars_of, contains_placeholder, has_placeholder, placeholder, replace_all, replace_placeholder,
    valid_name,
};
use crate::traits::{
    message_views, resolve_messages, select_by_pattern, select_messages, tagged_with,
    has_pattern_tag, FinalizablePrompt, FinalizedPrompt, MessageView,
};
use vstd::prelude::*;

verus! {

/// A prompt that may still hold placeholders: one message (`Prompt`) or an
/// ordered list of tagged messages (`PromptList`).
#[derive(Debug)]
pub struct PromptData<T> {
    data: T,
}

/// A prompt whose placeholders have all been resolved. It is only made by
/// finalizing a `PromptData`, and nothing changes it afterwards.
#[derive(Debug)]
pub struct ResolvedPromptData<T>(PromptData<T>);

/// A single-message prompt.
pub type Prompt = PromptData<String>;

/// A prompt of several messages, each with its own tags.
pub type PromptList = PromptData<Vec<(String, Tags)>>;

/// A resolved single-message prompt.
pub type ResolvedPrompt = ResolvedPromptData<String>;

/// A resolved prompt of several messages.
pub type ResolvedPromptList = ResolvedPromptData<Vec<(String, Tags)>>;

impl View for PromptData<String> {
    type V = Seq<char>;

    closed spec fn view(&self) -> Seq<char> {
        self.data@
    }
}

impl View for PromptData<Vec<(String, Tags)>> {
    type V = Seq<MessageView>;

    closed spec fn view(&self) -> Seq<MessageView> {
        message_views(self.data@)
    }
}

impl View for ResolvedPromptData<String> {
    type V = Seq<char>;

    closed spec fn view(&self) -> Seq<char> {
        self.0@
    }
}

impl View for ResolvedPromptData<Vec<(String, Tags)>> {
    type V = Seq<MessageView>;

    closed spec fn view(&self) -> Seq<MessageView> {
        self.0@
    }
}

/// Walks the messages of a prompt list, front to back.
pub struct PromptListIter<'a> {
    messages: &'a Vec<(String, Tags)>,
    pos: usize,
}

impl<'a> PromptListIter<'a> {
    /// The messages not yet handed out.
    pub closed spec fn remaining(&self) -> Seq<(String, Tags)> {
        if self.pos <= self.messages@.len() {
            self.messages@.skip(self.pos as int)
        } else {
            Seq::empty()
        }
    }

    fn over(messages: &'a Vec<(String, Tags)>) -> (r: PromptListIter<'a>)
        ensures
            r.remaining() == messages@,
    {
        let r = PromptListIter { messages, pos: 0 };
        proof {
            assert(messages@.skip(0) =~= messages@);
        }
        r
    }

    /// The next message, if any is left.
    pub fn next(&mut self) -> (r: Option<&'a (String, Tags)>)
        ensures
            old(self).remaining().len() == 0 ==> r is None && final(self).remaining() == old(
                self,
            ).remaining(),
            old(self).remaining().len() > 0 ==> r == Some(&old(self).remaining()[0])
                && final(self).remaining() == old(self).remaining().drop_first(),
    {
        if self.pos < self.messages.len() {
            let m = &self.messages[self.pos];
            proof {
                assert(self.messages@.skip(self.pos as int).drop_first() =~= self.messages@.skip(
                    self.pos + 1,
                ));
            }
            self.pos = self.pos + 1;
            Some(m)
        } else {
            None
        }
    }
}

impl Prompt {
    /// A prompt of the one message `message`.
    pub fn new(message: &str) -> (r: Prompt)
        ensures
            r@ == message@,
    {
        PromptData { data: message.to_owned() }
    }

    /// A prompt of one message made of `parts`, written one after another.
    pub fn from_parts(parts: &[&str]) -> (r: Prompt)
        ensures
            r@ == concat_parts(parts@.map_values(|p: &str| p@)),
    {
        PromptData { data: join_parts(parts) }
    }

    /// The text of the prompt.
    pub fn text(&self) -> (r: &str)
        ensures
            r@ == self@,
    {
        self.data.as_str()
    }

    /// The text of the prompt, taken out of it.
    pub fn into_text(self) -> (r: String)
        ensures
            r@ == self@,
    {
        self.data
    }
}

/// The texts of `parts` written one after another.
pub open spec fn concat_parts(parts: Seq<Seq<char>>) -> Seq<char>
    decreases parts.len(),
{
    if parts.len() == 0 {
        Seq::empty()
    } else {
        concat_parts(parts.drop_last()) + parts.last()
    }
}

/// The texts of `parts` written one after another.
pub fn join_parts(parts: &[&str]) -> (r: String)
    ensures
        r@ == concat_parts(parts@.map_values(|p: &str| p@)),
{
    let ghost ps = parts@.map_values(|p: &str| p@);
    let mut out = String::new();
    let n = parts.len();
    let mut i: usize = 0;
    while i < n
        invariant
            i <= n,
            n == parts@.len(),
            ps == parts@.map_values(|p: &str| p@),
            out@ == concat_parts(ps.take(i as int)),
        decreases n - i,
    {
        out.append(parts[i]);
        proof {
            assert(ps.take(i + 1).drop_last() =~= ps.take(i as int));
            assert(ps.take(i + 1).last() == parts@[i as int]@);
        }
        i = i + 1;
    }
    proof {
        assert(ps.take(n as int) =~= ps);
    }
    out
}

impl FinalizablePrompt for PromptData<String> {
    type FinalizedPrompt = ResolvedPromptData<String>;

    open spec fn messages(&self) -> Seq<MessageView> {
        seq![(self@, Seq::empty())]
    }

    fn has_unresolved_vars(&self) -> (r: Result<bool, PromptError>)
        ensures
            r == Ok::<bool, PromptError>(has_placeholder(self@)),
    {
        let t = chars_of(self.data.as_str());
        let found = contains_placeholder(&t);
        proof {
            let msgs = self.messages();
            if has_placeholder(self@) {
                assert(has_placeholder(msgs[0].0));
            }
        }
        Ok(found)
    }

    fn resolve_var(&mut self, var: &str, value: &str) -> (r: Result<(), PromptError>)
        ensures
            r is Ok ==> final(self)@ == replace_all(old(self)@, placeholder(var@), value@),
            r is Err ==> final(self)@ == old(self)@,
    {
        if !valid_name(var) {
            return Err(PromptError::InvalidVariable);
        }
        let ghost before = self.messages();
        let next = replace_placeholder(self.data.as_str(), var, value);
        self.data = next;
        proof {
            assert(self.messages() =~= resolve_messages(before, var@, value@));
        }
        Ok(())
    }

    fn finalize(self) -> (r: Result<ResolvedPromptData<String>, PromptError>)
        ensures
            r matches Ok(f) ==> f@ == self@,
    {
        match self.has_unresolved_vars() {
            Ok(true) => Err(PromptError::UnresolvedVars),
            _ => {
                let ghost msgs = self.messages();
                let f = ResolvedPromptData(self);
                assert(f.messages() == msgs);
                Ok(f)
            },
        }
    }
}

impl PromptList {
    /// A prompt list whose first message is `message`, tagged with `tags`.
    pub fn new(message: &str, tags: Vec<Tag>) -> (r: PromptList)
        ensures
            r@ == seq![(message@, tags@)],
    {
        let mut data: Vec<(String, Tags)> = Vec::new();
        data.push((message.to_owned(), tags));
        let r = PromptData { data };
        proof {
            assert(r@ =~= seq![(message@, tags@)]);
        }
        r
    }

    /// A prompt list with no message.
    pub fn empty() -> (r: PromptList)
        ensures
            r@ == Seq::<MessageView>::empty(),
    {
        let r = PromptData { data: Vec::new() };
        proof {
            assert(r@ =~= Seq::<MessageView>::empty());
        }
        r
    }

    /// Appends `message`, tagged with `tags`, after the last message.
    pub fn add_message(&mut self, message: &str, tags: Vec<Tag>)
        ensures
            final(self)@ == old(self)@.push((message@, tags@)),
    {
        self.data.push((message.to_owned(), tags));
        proof {
            assert(self@ =~= old(self)@.push((message@, tags@)));
        }
    }

    /// A prompt list of one message for each entry, in order, each tagged
    /// with the entry's role alone.
    pub fn from_role_messages(entries: &[(Role, &str)]) -> (r: PromptList)
        ensures
            r@ == role_messages(entries@.map_values(|e: (Role, &str)| (e.0, e.1@))),
    {
        let ghost es = entries@.map_values(|e: (Role, &str)| (e.0, e.1@));
        let mut r = PromptList::empty();
        let n = entries.len();
        let mut i: usize = 0;
        while i < n
            invariant
                i <= n,
                n == entries@.len(),
                es == entries@.map_values(|e: (Role, &str)| (e.0, e.1@)),
                r@ == role_messages(es.take(i as int)),
            decreases n - i,
        {
            let (role, text) = entries[i];
            let mut tags: Vec<Tag> = Vec::new();
            tags.push(Tag::Role(role));
            proof {
                assert(tags@ =~= seq![Tag::Role(role)]);
            }
            r.add_message(text, tags);
            proof {
                assert(es.take(i as int).push(es[i as int]) =~= es.take(i + 1));
                assert(role_messages(es.take(i + 1)) =~= role_messages(es.take(i as int)).push(
                    (es[i as int].1, seq![Tag::Role(es[i as int].0)]),
                ));
            }
            i = i + 1;
        }
        proof {
            assert(es.take(n as int) =~= es);
        }
        r
    }

    /// The number of messages.
    pub fn len(&self) -> (r: usize)
        ensures
            r == self@.len(),
    {
        self.data.len()
    }

    /// Walks the messages in order.
    pub fn iter(&self) -> (r: PromptListIter<'_>)
        ensures
            message_views(r.remaining()) == self@,
    {
        PromptListIter::over(&self.data)
    }

    /// The messages, taken out of the prompt.
    pub fn into_messages(self) -> (r: Vec<(String, Tags)>)
        ensures
            message_views(r@) == self@,
    {
        self.data
    }
}

/// One message for each role and text of `entries`, tagged with that role.
pub open spec fn role_messages(entries: Seq<(Role, Seq<char>)>) -> Seq<MessageView> {
    entries.map_values(|e: (Role, Seq<char>)| (e.1, seq![Tag::Role(e.0)]))
}

impl FinalizablePrompt for PromptData<Vec<(String, Tags)>> {
    type FinalizedPrompt = ResolvedPromptData<Vec<(String, Tags)>>;

    open spec fn messages(&self) -> Seq<MessageView> {
        self@
    }

    fn has_unresolved_vars(&self) -> (r: Result<bool, PromptError>) {
        let n = self.data.len();
        let mut i: usize = 0;
        while i < n
            invariant
                i <= n,
                n == self@.len(),
                forall|k: int| 0 <= k < i ==> !has_placeholder(#[trigger] self@[k].0),
            decreases n - i,
        {
            let t = chars_of(self.data[i].0.as_str());
            if contains_placeholder(&t) {
                assert(has_placeholder(self@[i as int].0));
                return Ok(true);
            }
            i = i + 1;
        }
        Ok(false)
    }

    fn resolve_var(&mut self, var: &str, value: &str) -> (r: Result<(), PromptError>) {
        if !valid_name(var) {
            return Err(PromptError::InvalidVariable);
        }
        let ghost target = resolve_messages(self@, var@, value@);
        let mut out: Vec<(String, Tags)> = Vec::new();
        let n = self.data.len();
        let mut i: usize = 0;
        while i < n
            invariant
                i <= n,
                n == self@.len(),
                target == resolve_messages(self@, var@, value@),
                message_views(out@) == target.take(i as int),
            decreases n - i,
        {
            let text = replace_placeholder(self.data[i].0.as_str(), var, value);
            let tags = copy_tags(&self.data[i].1);
            out.push((text, tags));
            proof {
                assert(message_views(out@) =~= target.take(i as int).push(target[i as int]));
                assert(target.take(i as int).push(target[i as int]) =~= target.take(i + 1));
            }
            i = i + 1;
        }
        self.data = out;
        proof {
            assert(target.take(n as int) =~= target);
        }
        Ok(())
    }

    fn finalize(self) -> (r: Result<ResolvedPromptData<Vec<(String, Tags)>>, PromptError>)
        ensures
            r matches Ok(f) ==> f@ == self@,
    {
        match self.has_unresolved_vars() {
            Ok(true) => Err(PromptError::UnresolvedVars),
            _ => {
                let ghost msgs = self.messages();
                let f = ResolvedPromptData(self);
                assert(f.messages() == msgs);
                Ok(f)
            },
        }
    }
}

impl ResolvedPrompt {
    /// The text of the prompt.
    pub fn text(&self) -> (r: &str)
        ensures
            r@ == self@,
    {
        self.0.data.as_str()
    }

    /// The text of the prompt, taken out of it.
    pub fn into_text(self) -> (r: String)
        ensures
            r@ == self@,
    {
        self.0.data
    }
}

impl ResolvedPromptList {
    /// The number of messages.
    pub fn len(&self) -> (r: usize)
        ensures
            r == self@.len(),
    {
        self.0.data.len()
    }

    /// Walks the messages in order.
    pub fn iter(&self) -> (r: PromptListIter<'_>)
        ensures
            message_views(r.remaining()) == self@,
    {
        PromptListIter::over(&self.0.data)
    }

    /// The messages, taken out of the prompt.
    pub fn into_messages(self) -> (r: Vec<(String, Tags)>)
        ensures
            message_views(r@) == self@,
    {
        self.0.data
    }
}

impl FinalizedPrompt for ResolvedPromptData<String> {
    open spec fn messages(&self) -> Seq<MessageView> {
        seq![(self@, Seq::empty())]
    }

    fn get_prompt_by_pattern(&self, pattern: &Pattern) -> (r: Result<Vec<(String, Tags)>, PromptError>)
        ensures
            r matches Ok(v) && message_views(v@) == seq![(self@, Seq::<Tag>::empty())],
    {
        let mut out: Vec<(String, Tags)> = Vec::new();
        out.push((self.0.data.clone(), Vec::new()));
        proof {
            let msgs = self.messages();
            assert(tagged_with(msgs.drop_last(), pattern@) =~= Seq::<MessageView>::empty());
            assert(!has_pattern_tag(msgs.last().1, pattern@));
            assert(message_views(out@) =~= msgs);
        }
        Ok(out)
    }
}

impl FinalizedPrompt for ResolvedPromptData<Vec<(String, Tags)>> {
    open spec fn messages(&self) -> Seq<MessageView> {
        self@
    }

    fn get_prompt_by_pattern(&self, pattern: &Pattern) -> (r: Result<Vec<(String, Tags)>, PromptError>) {
        Ok(select_messages(&self.0.data, pattern))
    }
}


/// The one-string form of `msgs`: for each message in order, its role name,
/// `": "`, its text and a line break.
pub open spec fn transcript(msgs: Seq<MessageView>) -> Seq<char>
    decreases msgs.len(),
{
    if msgs.len() == 0 {
        Seq::empty()
    } else {
        transcript(msgs.drop_last()) + role_name(first_role(msgs.last().1)) + ": "@
            + msgs.last().0 + "\n"@
    }
}

impl ResolvedPromptList {
    /// All messages in one string: for each message in order, the name of
    /// its role (`user` where it has no role tag), `": "`, its text and a
    /// line break.
    pub fn to_transcript(&self) -> (r: String)
        ensures
            r@ == transcript(self@),
    {
        let ghost msgs = self@;
        let data = &self.0.data;
        let n = data.len();
        let mut out = String::new();
        let mut i: usize = 0;
        while i < n
            invariant
                i <= n,
                n == data@.len(),
                msgs == message_views(data@),
                out@ == transcript(msgs.take(i as int)),
            decreases n - i,
        {
            let role = role_of(&data[i].1);
            out.append(role.name());
            out.append(": ");
            out.append(data[i].0.as_str());
            out.append("\n");
            proof {
                assert(msgs.take(i + 1).drop_last() =~= msgs.take(i as int));
                assert(msgs.take(i + 1).last() == msgs[i as int]);
            }
            i = i + 1;
        }
        proof {
            assert(msgs.take(n as int) =~= msgs);
        }
        out
    }
}

impl FinalizablePrompt for String {
    type FinalizedPrompt = ResolvedPromptData<String>;

    open spec fn messages(&self) -> Seq<MessageView> {
        seq![(self@, Seq::empty())]
    }

    fn has_unresolved_vars(&self) -> (r: Result<bool, PromptError>) {
        let t = chars_of(self.as_str());
        let found = contains_placeholder(&t);
        proof {
            let msgs = self.messages();
            if has_placeholder(self@) {
                assert(has_placeholder(msgs[0].0));
            }
        }
        Ok(found)
    }

    fn resolve_var(&mut self, var: &str, value: &str) -> (r: Result<(), PromptError>) {
        if !valid_name(var) {
            return Err(PromptError::InvalidVariable);
        }
        let ghost before = self.messages();
        let next = replace_placeholder(self.as_str(), var, value);
        *self = next;
        proof {
            assert(self.messages() =~= resolve_messages(before, var@, value@));
        }
        Ok(())
    }

    fn finalize(self) -> (r: Result<ResolvedPromptData<String>, PromptError>)
        ensures
            r matches Ok(f) ==> f@ == self@,
    {
        match self.has_unresolved_vars() {
            Ok(true) => Err(PromptError::UnresolvedVars),
            _ => {
                let ghost msgs = self.messages();
                let f = ResolvedPromptData(PromptData { data: self });
                assert(f.messages() == msgs);
                Ok(f)
            },
        }
    }
}

impl Default for PromptData<Vec<(String, Tags)>> {
    fn default() -> (r: Self)
        ensures
            r@ == Seq::<MessageView>::empty(),
    {
        PromptList::empty()
    }
}

impl From<PromptData<String>> for String {
    fn from(prompt: PromptData<String>) -> (r: String)
        ensures
            r@ == prompt@,
    {
        prompt.data
    }
}

impl From<ResolvedPromptData<String>> for String {
    fn from(prompt: ResolvedPromptData<String>) -> (r: String)
        ensures
            r@ == prompt@,
    {
        prompt.0.data
    }
}

impl vstd::std_specs::convert::FromSpecImpl<ResolvedPromptData<String>> for String {
    open spec fn obeys_from_spec() -> bool {
        true
    }

    closed spec fn from_spec(prompt: ResolvedPromptData<String>) -> String {
        prompt.0.data
    }
}

impl Default for PromptData<String> {
    fn default() -> (r: Self)
        ensures
            r@ == Seq::<char>::empty(),
    {
        PromptData { data: String::new() }
    }
}

impl vstd::std_specs::convert::FromSpecImpl<PromptData<String>> for String {
    open spec fn obeys_from_spec() -> bool {
        true
    }

    closed spec fn from_spec(prompt: PromptData<String>) -> String {
        prompt.data
    }
}

} // verus!
