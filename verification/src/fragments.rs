//! Reference template bodies: the building blocks a code generator emits,
//! written out by hand and verified against the rendering contract.
//!
//! `Text` emits a fixed piece of text.  The `Show*` fragments look a key up
//! in the value store under a concrete expected type and, only when both the
//! key and the type match, emit surrounding literals and the value's
//! spelling; on a missed lookup the whole conditional block is skipped.
//! `Pair` renders one fragment after another, so larger bodies compose.

use vstd::prelude::*;

use crate::error::RenderError;
use crate::sink::TextSink;
use crate::text::{bool_seq, dec_seq, u32_decimal};
use crate::values::{tag_of, Value, ValueTag, Values};
use crate::Template;

verus! {

/// A fragment that always emits a fixed piece of text.
pub struct Text {
    /// The text emitted on every render.
    pub body: String,
}

impl Text {
    /// Creates a fragment emitting `body`.
    pub fn new(body: &str) -> (r: Text)
        ensures
            r.body@ == body@,
    {
        Text { body: body.to_owned() }
    }
}

impl Template for Text {
    open spec fn output(&self, store: Map<Seq<char>, Value>) -> Seq<char> {
        self.body@
    }

    open spec fn succeeds(&self, store: Map<Seq<char>, Value>) -> bool {
        true
    }

    const SIZE_HINT: usize = 16;

    fn render_into_with_values<V: Values, W: TextSink>(&self, writer: &mut W, store: &V) -> (r:
        Result<(), RenderError>) {
        writer.write_text(self.body.as_str())
    }
}

/// A fragment that emits an unsigned 32-bit store value in decimal, wrapped
/// in two literals, and emits nothing when the lookup misses.
pub struct ShowU32 {
    /// The store key consulted on every render.
    pub key: String,
    /// Emitted before the value when the lookup succeeds.
    pub before: String,
    /// Emitted after the value when the lookup succeeds.
    pub after: String,
}

impl Template for ShowU32 {
    open spec fn output(&self, store: Map<Seq<char>, Value>) -> Seq<char> {
        if store.contains_key(self.key@) {
            match store[self.key@] {
                Value::U32(n) => self.before@ + dec_seq(n as nat) + self.after@,
                _ => Seq::empty(),
            }
        } else {
            Seq::empty()
        }
    }

    open spec fn succeeds(&self, store: Map<Seq<char>, Value>) -> bool {
        true
    }

    const SIZE_HINT: usize = 16;

    fn render_into_with_values<V: Values, W: TextSink>(&self, writer: &mut W, store: &V) -> (r:
        Result<(), RenderError>) {
        match store.get_value::<u32>(self.key.as_str()) {
            Ok(n) => {
                writer.write_text(self.before.as_str())?;
                let digits = u32_decimal(*n);
                writer.write_text(digits.as_str())?;
                writer.write_text(self.after.as_str())?;
                proof {
                    assert(old(writer).content() + self.before@ + dec_seq(*n as nat) + self.after@
                        =~= old(writer).content() + (self.before@ + dec_seq(*n as nat)
                        + self.after@));
                }
                Ok(())
            },
            Err(_) => {
                proof {
                    assert(old(writer).content() + Seq::<char>::empty() =~= old(writer).content());
                }
                Ok(())
            },
        }
    }
}

/// A fragment that emits a borrowed string store value, wrapped in two
/// literals, and emits nothing when the lookup misses.
pub struct ShowStr {
    /// The store key consulted on every render.
    pub key: String,
    /// Emitted before the value when the lookup succeeds.
    pub before: String,
    /// Emitted after the value when the lookup succeeds.
    pub after: String,
}

impl Template for ShowStr {
    open spec fn output(&self, store: Map<Seq<char>, Value>) -> Seq<char> {
        if store.contains_key(self.key@) {
            match store[self.key@] {
                Value::Str(s) => self.before@ + s@ + self.after@,
                _ => Seq::empty(),
            }
        } else {
            Seq::empty()
        }
    }

    open spec fn succeeds(&self, store: Map<Seq<char>, Value>) -> bool {
        true
    }

    const SIZE_HINT: usize = 16;

    fn render_into_with_values<V: Values, W: TextSink>(&self, writer: &mut W, store: &V) -> (r:
        Result<(), RenderError>) {
        match store.get_value::<&'static str>(self.key.as_str()) {
            Ok(s) => {
                writer.write_text(self.before.as_str())?;
                writer.write_text(*s)?;
                writer.write_text(self.after.as_str())?;
                proof {
                    assert(old(writer).content() + self.before@ + (*s)@ + self.after@ =~= old(
                        writer,
                    ).content() + (self.before@ + (*s)@ + self.after@));
                }
                Ok(())
            },
            Err(_) => {
                proof {
                    assert(old(writer).content() + Seq::<char>::empty() =~= old(writer).content());
                }
                Ok(())
            },
        }
    }
}

/// A fragment that emits a boolean store value as `true` or `false`, wrapped
/// in two literals, and emits nothing when the lookup misses.
pub struct ShowBool {
    /// The store key consulted on every render.
    pub key: String,
    /// Emitted before the value when the lookup succeeds.
    pub before: String,
    /// Emitted after the value when the lookup succeeds.
    pub after: String,
}

impl Template for ShowBool {
    open spec fn output(&self, store: Map<Seq<char>, Value>) -> Seq<char> {
        if store.contains_key(self.key@) {
            match store[self.key@] {
                Value::Bool(b) => self.before@ + bool_seq(b) + self.after@,
                _ => Seq::empty(),
            }
        } else {
            Seq::empty()
        }
    }

    open spec fn succeeds(&self, store: Map<Seq<char>, Value>) -> bool {
        true
    }

    const SIZE_HINT: usize = 8;

    fn render_into_with_values<V: Values, W: TextSink>(&self, writer: &mut W, store: &V) -> (r:
        Result<(), RenderError>) {
        match store.get_value::<bool>(self.key.as_str()) {
            Ok(b) => {
                writer.write_text(self.before.as_str())?;
                if *b {
                    writer.write_text("true")?;
                } else {
                    writer.write_text("false")?;
                }
                writer.write_text(self.after.as_str())?;
                proof {
                    assert(old(writer).content() + self.before@ + bool_seq(*b) + self.after@
                        =~= old(writer).content() + (self.before@ + bool_seq(*b) + self.after@));
                }
                Ok(())
            },
            Err(_) => {
                proof {
                    assert(old(writer).content() + Seq::<char>::empty() =~= old(writer).content());
                }
                Ok(())
            },
        }
    }
}

/// A fragment that emits an unsigned 32-bit store value in decimal, wrapped
/// in two literals, and surfaces the store failure as a render failure when
/// the lookup misses: it succeeds exactly on stores holding an unsigned
/// 32-bit value under its key.
pub struct RequireU32 {
    /// The store key consulted on every render.
    pub key: String,
    /// Emitted before the value.
    pub before: String,
    /// Emitted after the value.
    pub after: String,
}

impl Template for RequireU32 {
    open spec fn output(&self, store: Map<Seq<char>, Value>) -> Seq<char> {
        if store.contains_key(self.key@) {
            match store[self.key@] {
                Value::U32(n) => self.before@ + dec_seq(n as nat) + self.after@,
                _ => Seq::empty(),
            }
        } else {
            Seq::empty()
        }
    }

    open spec fn succeeds(&self, store: Map<Seq<char>, Value>) -> bool {
        store.contains_key(self.key@) && tag_of(store[self.key@]) == ValueTag::U32
    }

    const SIZE_HINT: usize = 16;

    fn render_into_with_values<V: Values, W: TextSink>(&self, writer: &mut W, store: &V) -> (r:
        Result<(), RenderError>) {
        match store.get_value::<u32>(self.key.as_str()) {
            Ok(n) => {
                writer.write_text(self.before.as_str())?;
                let digits = u32_decimal(*n);
                writer.write_text(digits.as_str())?;
                writer.write_text(self.after.as_str())?;
                proof {
                    assert(old(writer).content() + self.before@ + dec_seq(*n as nat) + self.after@
                        =~= old(writer).content() + (self.before@ + dec_seq(*n as nat)
                        + self.after@));
                }
                Ok(())
            },
            Err(e) => Err(RenderError::Values(e)),
        }
    }
}

/// Two fragments rendered in sequence: the whole renders the first's text
/// followed by the second's, and succeeds exactly when both do.
pub struct Pair<A, B> {
    /// Rendered first.
    pub first: A,
    /// Rendered second.
    pub second: B,
}

impl<A: Template, B: Template> Template for Pair<A, B> {
    open spec fn output(&self, store: Map<Seq<char>, Value>) -> Seq<char> {
        self.first.output(store) + self.second.output(store)
    }

    open spec fn succeeds(&self, store: Map<Seq<char>, Value>) -> bool {
        self.first.succeeds(store) && self.second.succeeds(store)
    }

    const SIZE_HINT: usize = A::SIZE_HINT + B::SIZE_HINT;

    fn render_into_with_values<V: Values, W: TextSink>(&self, writer: &mut W, store: &V) -> (r:
        Result<(), RenderError>) {
        self.first.render_into_with_values(writer, store)?;
        self.second.render_into_with_values(writer, store)?;
        proof {
            assert(old(writer).content() + self.first.output(store.entries())
                + self.second.output(store.entries()) =~= old(writer).content() + (
            self.first.output(store.entries()) + self.second.output(store.entries())));
        }
        Ok(())
    }
}

} // verus!
