//! The logger facade: tag accumulation, the runtime enable switch,
//! forking, and the line-formatting rule.

use crate::sink::DefaultLogImpl;
use crate::sink::LogImpl;
use crate::text::Stringify;
use std::rc::Rc;
use vstd::prelude::*;

verus! {

/// One rendered tag: the tag's characters enclosed in their own bracket
/// pair.
pub open spec fn bracketed(tag: Seq<char>) -> Seq<char> {
    seq!['['] + tag + seq![']']
}

/// The bracket prefix of a line: every tag in its own bracket pair, in
/// insertion order, with nothing in between; empty when there are no
/// tags.
pub open spec fn tag_prefix(tags: Seq<Seq<char>>) -> Seq<char>
    decreases tags.len(),
{
    if tags.len() == 0 {
        Seq::empty()
    } else {
        tag_prefix(tags.drop_last()) + bracketed(tags.last())
    }
}

/// A fully formatted log line: the bracket prefix, exactly one space,
/// then the rendered message.
pub open spec fn format_line(tags: Seq<Seq<char>>, msg: Seq<char>) -> Seq<char> {
    tag_prefix(tags) + seq![' '] + msg
}

/// What `fork` hands back: a logger whose tags and enable flag are
/// value-copies of the parent's at fork time, and whose sink reference
/// is the parent's own, shared rather than duplicated.
pub open spec fn is_fork_of(child: Log4, parent: Log4) -> bool {
    &&& child.enabled() == parent.enabled()
    &&& child.tags_view() == parent.tags_view()
    &&& child.sink_ref() == parent.sink_ref()
}

/// A logger value: an ordered sequence of textual tags, an enable flag,
/// and a shared reference to the sink that receives formatted lines.
pub struct Log4 {
    /// Whether emit operations forward to the sink; when false they are
    /// no-ops and the message is never formatted.
    pub enable: bool,
    tags: Vec<String>,
    delegate: Rc<Box<dyn LogImpl>>,
}

impl Log4 {
    /// Whether this logger currently forwards emit calls to its sink.
    pub closed spec fn enabled(&self) -> bool {
        self.enable
    }

    /// The tag sequence, as the mathematical sequence of its characters.
    pub closed spec fn tags_view(&self) -> Seq<Seq<char>> {
        self.tags@.map(|i: int, s: String| s@)
    }

    /// The sink this logger forwards to, as an abstract value; a fork
    /// shares it with its parent.
    pub closed spec fn sink_ref(&self) -> Rc<Box<dyn LogImpl>> {
        self.delegate
    }

    /// A fresh root logger: no tags, enabled, default sink.
    pub fn new() -> (r: Log4)
        ensures
            r.enabled(),
            r.tags_view() == Seq::<Seq<char>>::empty(),
    {
        let log = Log4 {
            enable: true,
            tags: Vec::new(),
            delegate: Rc::new(Box::new(DefaultLogImpl {})),
        };
        proof {
            assert(log.tags_view() =~= Seq::<Seq<char>>::empty());
        }
        log
    }

    /// A new logger with a value-copy of this logger's tags and enable
    /// flag, sharing this logger's sink.
    pub fn fork(&self) -> (r: Log4)
        ensures
            is_fork_of(r, *self),
    {
        let log4 = Log4 {
            tags: self.tags.clone(),
            delegate: share_sink(&self.delegate),
            enable: self.enable,
        };
        proof {
            assert(log4.tags_view() =~= self.tags_view());
        }
        log4
    }

    /// Replaces the sink this logger forwards to.  Loggers already forked
    /// from this one keep the sink reference they captured at their own
    /// fork time.
    pub fn set_log_impl(&mut self, delegate: Box<dyn LogImpl>)
        ensures
            final(self).enabled() == old(self).enabled(),
            final(self).tags_view() == old(self).tags_view(),
            final(self).sink_ref() == delegate,
    {
        let shared = Rc::new(delegate);
        self.delegate = shared;
    }

    /// Appends the plain textual form of `tag` to this logger's tag
    /// sequence; no other logger — parent, sibling or earlier fork — is
    /// affected.
    pub fn add_tag<T: Stringify>(&mut self, tag: T)
        ensures
            final(self).tags_view() == old(self).tags_view().push(tag.text()),
            final(self).enabled() == old(self).enabled(),
            final(self).sink_ref() == old(self).sink_ref(),
    {
        let rendered = tag.to_text();
        self.tags.push(rendered);
        proof {
            assert(self.tags_view() =~= old(self).tags_view().push(tag.text()));
        }
    }

    /// Renders the line an emit call would forward: the bracketed tag
    /// prefix, one space, then the debug rendering of the message.
    pub fn to_log_line<T: Stringify>(&self, ss: &T) -> (r: String)
        ensures
            r@ == format_line(self.tags_view(), ss.debug_text()),
    {
        let mut line = String::new();
        let mut i: usize = 0;
        while i < self.tags.len()
            invariant
                i <= self.tags.len(),
                line@ == tag_prefix(self.tags_view().take(i as int)),
            decreases self.tags.len() - i,
        {
            line.append("[");
            line.append(self.tags[i].as_str());
            line.append("]");
            proof {
                reveal_strlit("[");
                reveal_strlit("]");
                let tv = self.tags_view();
                assert(tv.take(i + 1).drop_last() =~= tv.take(i as int));
                assert(line@ =~= tag_prefix(tv.take(i + 1)));
            }
            i = i + 1;
        }
        proof {
            assert(self.tags_view().take(self.tags.len() as int) =~= self.tags_view());
        }
        line.append(" ");
        let msg = ss.to_debug_text();
        line.append(msg.as_str());
        proof {
            reveal_strlit(" ");
            assert(line@ =~= format_line(self.tags_view(), ss.debug_text()));
        }
        line
    }

    /// The decision every emit call goes through: when the logger is
    /// enabled, the formatted line to hand to the sink; when it is
    /// disabled, nothing — the message is not even formatted.
    pub fn line_to_emit<T: Stringify>(&self, ss: &T) -> (r: Option<String>)
        ensures
            r is Some <==> self.enabled(),
            r matches Some(line) ==> line@ == format_line(self.tags_view(), ss.debug_text()),
    {
        if self.enable {
            Some(self.to_log_line(ss))
        } else {
            None
        }
    }

    /// When enabled, formats the message and forwards it to the sink's
    /// `info` method; when disabled, does nothing.
    pub fn info<T: Stringify>(&self, ss: T) {
        match self.line_to_emit(&ss) {
            Some(content) => self.delegate.info(&content),
            None => (),
        }
    }

    /// When enabled, formats the message and forwards it to the sink's
    /// `warn` method; when disabled, does nothing.
    pub fn warn<T: Stringify>(&self, ss: T) {
        match self.line_to_emit(&ss) {
            Some(content) => self.delegate.warn(&content),
            None => (),
        }
    }

    /// When enabled, formats the message and forwards it to the sink's
    /// `error` method; when disabled, does nothing.
    pub fn error<T: Stringify>(&self, ss: T) {
        match self.line_to_emit(&ss) {
            Some(content) => self.delegate.error(&content),
            None => (),
        }
    }
}

/// A formatted line renders each tag enclosed in its own bracket pair,
/// in insertion order, followed by exactly one space and then the
/// rendered message: the line for `tags.push(tag)` is the bracket prefix
/// for `tags`, then `[tag]`, then the space and the message, and the
/// line for an empty tag sequence is just the space and the message.
pub proof fn lemma_format_line_push(tags: Seq<Seq<char>>, tag: Seq<char>, msg: Seq<char>)
    ensures
        format_line(tags.push(tag), msg) == tag_prefix(tags) + bracketed(tag) + seq![' '] + msg,
        format_line(Seq::<Seq<char>>::empty(), msg) == seq![' '] + msg,
{
    assert(tags.push(tag).drop_last() =~= tags);
    assert(format_line(tags.push(tag), msg) =~= tag_prefix(tags) + bracketed(tag) + seq![' ']
        + msg);
    assert(format_line(Seq::<Seq<char>>::empty(), msg) =~= seq![' '] + msg);
}

/// Tagging a fork never touches the parent: when `child` was forked from
/// `parent` and a tag was then appended to the fork alone, the fork's
/// tag sequence is exactly the parent's — unchanged — with the new tag
/// after it.
pub proof fn lemma_fork_tag_independence(
    parent: Log4,
    child: Log4,
    tagged: Log4,
    tag: Seq<char>,
)
    requires
        is_fork_of(child, parent),
        tagged.tags_view() == child.tags_view().push(tag),
    ensures
        tagged.tags_view().drop_last() == parent.tags_view(),
        tagged.tags_view().last() == tag,
{
    assert(tagged.tags_view().drop_last() =~= parent.tags_view());
}

/// A fork and its parent forward to one shared sink: the fork holds the
/// very sink reference its parent holds, so emit calls on either reach
/// the same underlying backend instance.
pub proof fn lemma_fork_shares_sink(parent: Log4, child: Log4)
    requires
        is_fork_of(child, parent),
    ensures
        child.sink_ref() == parent.sink_ref(),
{
}

/// Relies on Rc::clone: the new handle points at the same allocation as
/// the old one, so the sink instance is shared, not copied.
#[verifier::external_body]
fn share_sink(s: &Rc<Box<dyn LogImpl>>) -> (r: Rc<Box<dyn LogImpl>>)
    ensures
        r == *s,
{
    s.clone()
}

} // verus!
