//! Runtime rendering core of a compiled template system.
//!
//! A generated template value implements the [`Template`] contract: one
//! required method writes the rendered text into a caller-supplied text sink,
//! consulting a type-erased [`values::Values`] store for runtime data, and
//! every other entry point is a default convenience built on it.  The
//! [`DynTemplate`] wrapper is the object-safe counterpart, usable behind a
//! single non-generic handle.  Common ownership wrappers around a template
//! value satisfy the contract themselves, by delegation.
//!
//! The parser, the type checker and the code generator that produce template
//! values are outside collaborators: nothing here reads template syntax.

use vstd::prelude::*;
use vstd::utf8::encode_utf8;

pub mod error;
pub mod fragments;
pub mod sink;
pub mod text;
pub mod values;

use crate::error::{IoError, RenderError};
use crate::sink::{ByteSink, TextSink};
use crate::values::{NoValues, Value, Values};

use std::rc::Rc;
use std::sync::Arc;

verus! {

/// Relies on String::try_reserve: pre-sizing a buffer never changes its
/// text, and a failed reservation is tolerated, not fatal.
#[verifier::external_body]
fn reserve_hint(buf: &mut String, additional: usize)
    ensures
        final(buf)@ == old(buf)@,
{
    let _ = buf.try_reserve(additional);
}

/// Main template trait; implementations are generally produced by the
/// external code generator.
///
/// A template value is modelled by two spec functions: `output`, the text it
/// renders given the entries of a value store, and `succeeds`, whether its
/// body runs to completion on those entries when the sink accepts every
/// write.  The one required method is
/// [`render_into_with_values`][Template::render_into_with_values]; all other
/// entry points are default conveniences built on it.
///
/// If you need an object-safe template, use [`DynTemplate`].
pub trait Template {
    /// The text this template renders, given the entries of the value store
    /// it is handed.
    spec fn output(&self, store: Map<Seq<char>, Value>) -> Seq<char>;

    /// Whether this template's body runs to completion on the given store
    /// entries, provided the sink accepts every write.
    spec fn succeeds(&self, store: Map<Seq<char>, Value>) -> bool;

    /// A rough estimate of the expanded length of the rendered template,
    /// used only to pre-size the buffer of the allocating entry points.  A
    /// wrong value never causes a failure.
    const SIZE_HINT: usize;

    /// Helper method which allocates a new `String` and renders into it.
    fn render(&self) -> (r: Result<String, RenderError>)
        ensures
            r is Ok <==> self.succeeds(Map::empty()),
            r matches Ok(s) ==> s@ == self.output(Map::empty()),
    {
        self.render_with_values(&NoValues)
    }

    /// Helper method which allocates a new `String` and renders into it with
    /// the provided [`Values`].
    fn render_with_values<V: Values>(&self, store: &V) -> (r: Result<String, RenderError>)
        ensures
            r is Ok <==> self.succeeds(store.entries()),
            r matches Ok(s) ==> s@ == self.output(store.entries()),
    {
        let mut buf = String::new();
        reserve_hint(&mut buf, Self::SIZE_HINT);
        match self.render_into_with_values(&mut buf, store) {
            Ok(()) => {
                proof {
                    assert(Seq::<char>::empty() + self.output(store.entries()) =~= self.output(
                        store.entries(),
                    ));
                }
                Ok(buf)
            },
            Err(e) => Err(e),
        }
    }

    /// Renders the template into the given text sink.
    fn render_into<W: TextSink>(&self, writer: &mut W) -> (r: Result<(), RenderError>)
        requires
            old(writer).wf(),
        ensures
            final(writer).wf(),
            old(writer).reliable() ==> final(writer).reliable(),
            old(writer).reliable() ==> (r is Ok <==> self.succeeds(Map::empty())),
            r is Ok ==> final(writer).content() == old(writer).content() + self.output(
                Map::empty(),
            ),
    {
        self.render_into_with_values(writer, &NoValues)
    }

    /// Renders the template into the given text sink with the provided
    /// [`Values`].  This is the single method a generated template body must
    /// implement.
    ///
    /// Any failure while writing to the sink, including one the body chose
    /// to surface from a store lookup, propagates as the failure result; the
    /// text already accepted by the sink remains there.
    fn render_into_with_values<V: Values, W: TextSink>(&self, writer: &mut W, store: &V) -> (r:
        Result<(), RenderError>)
        requires
            old(writer).wf(),
        ensures
            final(writer).wf(),
            old(writer).reliable() ==> final(writer).reliable(),
            old(writer).reliable() ==> (r is Ok <==> self.succeeds(store.entries())),
            r is Ok ==> final(writer).content() == old(writer).content() + self.output(
                store.entries(),
            ),
    ;

    /// Renders the template into the given byte sink.
    fn write_into<W: ByteSink>(&self, writer: &mut W) -> (r: Result<(), IoError>)
        ensures
            old(writer).reliable() ==> final(writer).reliable(),
            old(writer).reliable() ==> (r is Ok <==> self.succeeds(Map::empty())),
            r is Ok ==> final(writer).bytes() == old(writer).bytes() + encode_utf8(
                self.output(Map::empty()),
            ),
            !self.succeeds(Map::empty()) ==> r == Err::<(), IoError>(IoError::Other)
                && final(writer).bytes() == old(writer).bytes(),
            r is Err ==> exists|n: int|
                0 <= n <= encode_utf8(self.output(Map::empty())).len() && final(writer).bytes()
                    == old(writer).bytes() + encode_utf8(self.output(Map::empty())).subrange(0, n),
    {
        self.write_into_with_values(writer, &NoValues)
    }

    /// Renders the template into the given byte sink with the provided
    /// [`Values`].
    ///
    /// The rendered text is written as its UTF-8 bytes.  An error reported
    /// by the byte sink is surfaced as it was reported; when the text path
    /// fails without any byte fault, a generic error is synthesized so the
    /// byte-oriented caller never observes a silent failure.
    fn write_into_with_values<V: Values, W: ByteSink>(&self, writer: &mut W, store: &V) -> (r:
        Result<(), IoError>)
        ensures
            old(writer).reliable() ==> final(writer).reliable(),
            old(writer).reliable() ==> (r is Ok <==> self.succeeds(store.entries())),
            r is Ok ==> final(writer).bytes() == old(writer).bytes() + encode_utf8(
                self.output(store.entries()),
            ),
            !self.succeeds(store.entries()) ==> r == Err::<(), IoError>(IoError::Other)
                && final(writer).bytes() == old(writer).bytes(),
            r is Err ==> exists|n: int|
                0 <= n <= encode_utf8(self.output(store.entries())).len() && final(writer).bytes()
                    == old(writer).bytes() + encode_utf8(self.output(store.entries())).subrange(
                    0,
                    n,
                ),
    {
        let mut buf = String::new();
        match self.render_into_with_values(&mut buf, store) {
            Ok(()) => {
                proof {
                    assert(Seq::<char>::empty() + self.output(store.entries()) =~= self.output(
                        store.entries(),
                    ));
                }
                writer.write_bytes(buf.as_str().as_bytes())
            },
            Err(_) => {
                proof {
                    assert(old(writer).bytes() + encode_utf8(self.output(store.entries())).subrange(
                        0,
                        0,
                    ) =~= old(writer).bytes());
                }
                Err(IoError::Other)
            },
        }
    }
}

impl<T: Template> Template for &T {
    open spec fn output(&self, store: Map<Seq<char>, Value>) -> Seq<char> {
        (**self).output(store)
    }

    open spec fn succeeds(&self, store: Map<Seq<char>, Value>) -> bool {
        (**self).succeeds(store)
    }

    const SIZE_HINT: usize = T::SIZE_HINT;

    fn render_into_with_values<V: Values, W: TextSink>(&self, writer: &mut W, store: &V) -> (r:
        Result<(), RenderError>) {
        <T as Template>::render_into_with_values(*self, writer, store)
    }
}

impl<T: Template> Template for &mut T {
    open spec fn output(&self, store: Map<Seq<char>, Value>) -> Seq<char> {
        (**self).output(store)
    }

    open spec fn succeeds(&self, store: Map<Seq<char>, Value>) -> bool {
        (**self).succeeds(store)
    }

    const SIZE_HINT: usize = T::SIZE_HINT;

    fn render_into_with_values<V: Values, W: TextSink>(&self, writer: &mut W, store: &V) -> (r:
        Result<(), RenderError>) {
        <T as Template>::render_into_with_values(&**self, writer, store)
    }
}

impl<T: Template> Template for Box<T> {
    open spec fn output(&self, store: Map<Seq<char>, Value>) -> Seq<char> {
        (**self).output(store)
    }

    open spec fn succeeds(&self, store: Map<Seq<char>, Value>) -> bool {
        (**self).succeeds(store)
    }

    const SIZE_HINT: usize = T::SIZE_HINT;

    fn render_into_with_values<V: Values, W: TextSink>(&self, writer: &mut W, store: &V) -> (r:
        Result<(), RenderError>) {
        <T as Template>::render_into_with_values(&**self, writer, store)
    }
}

impl<T: Template> Template for Rc<T> {
    open spec fn output(&self, store: Map<Seq<char>, Value>) -> Seq<char> {
        (**self).output(store)
    }

    open spec fn succeeds(&self, store: Map<Seq<char>, Value>) -> bool {
        (**self).succeeds(store)
    }

    const SIZE_HINT: usize = T::SIZE_HINT;

    fn render_into_with_values<V: Values, W: TextSink>(&self, writer: &mut W, store: &V) -> (r:
        Result<(), RenderError>) {
        <T as Template>::render_into_with_values(&**self, writer, store)
    }
}

impl<T: Template> Template for Arc<T> {
    open spec fn output(&self, store: Map<Seq<char>, Value>) -> Seq<char> {
        (**self).output(store)
    }

    open spec fn succeeds(&self, store: Map<Seq<char>, Value>) -> bool {
        (**self).succeeds(store)
    }

    const SIZE_HINT: usize = T::SIZE_HINT;

    fn render_into_with_values<V: Values, W: TextSink>(&self, writer: &mut W, store: &V) -> (r:
        Result<(), RenderError>) {
        <T as Template>::render_into_with_values(&**self, writer, store)
    }
}

/// Object-safe wrapper trait around [`Template`] implementers.
///
/// This trades reduced performance for object safety: every entry point
/// renders with an empty value store and takes a concrete sink, so
/// heterogeneous template values fit behind one non-generic handle.
pub trait DynTemplate {
    /// The text this template renders with an empty value store.
    spec fn dyn_output(&self) -> Seq<char>;

    /// Whether this template's body runs to completion on an empty value
    /// store when the sink accepts every write.
    spec fn dyn_succeeds(&self) -> bool;

    /// The size estimate reported through the wrapper: the static size hint
    /// of the underlying template type.
    spec fn dyn_size_hint(&self) -> usize;

    /// Helper method which allocates a new `String` and renders into it.
    fn dyn_render(&self) -> (r: Result<String, RenderError>)
        ensures
            r is Ok <==> self.dyn_succeeds(),
            r matches Ok(s) ==> s@ == self.dyn_output(),
    ;

    /// Renders the template into the given text buffer.
    fn dyn_render_into(&self, writer: &mut String) -> (r: Result<(), RenderError>)
        ensures
            r is Ok <==> self.dyn_succeeds(),
            r is Ok ==> final(writer)@ == old(writer)@ + self.dyn_output(),
    ;

    /// Renders the template into the given byte buffer.
    fn dyn_write_into(&self, writer: &mut Vec<u8>) -> (r: Result<(), IoError>)
        ensures
            r is Ok <==> self.dyn_succeeds(),
            r is Ok ==> final(writer)@ == old(writer)@ + encode_utf8(self.dyn_output()),
    ;

    /// Provides a conservative estimate of the expanded length of the
    /// rendered template.
    fn size_hint(&self) -> (r: usize)
        ensures
            r == self.dyn_size_hint(),
    ;
}

impl<T: Template> DynTemplate for T {
    open spec fn dyn_output(&self) -> Seq<char> {
        self.output(Map::empty())
    }

    open spec fn dyn_succeeds(&self) -> bool {
        self.succeeds(Map::empty())
    }

    open spec fn dyn_size_hint(&self) -> usize {
        T::SIZE_HINT
    }

    fn dyn_render(&self) -> (r: Result<String, RenderError>) {
        <Self as Template>::render(self)
    }

    fn dyn_render_into(&self, writer: &mut String) -> (r: Result<(), RenderError>) {
        <Self as Template>::render_into(self, writer)
    }

    fn dyn_write_into(&self, writer: &mut Vec<u8>) -> (r: Result<(), IoError>) {
        <Self as Template>::write_into(self, writer)
    }

    fn size_hint(&self) -> (r: usize) {
        Self::SIZE_HINT
    }
}

/// Dynamic dispatch law: the object-safe wrapper renders exactly what the
/// static contract renders with an empty value store, succeeds exactly when
/// it does, and reports the static size hint.
pub proof fn lemma_dyn_matches_static<T: Template>(t: &T)
    ensures
        t.dyn_output() == t.output(Map::empty()),
        t.dyn_succeeds() == t.succeeds(Map::empty()),
        t.dyn_size_hint() == T::SIZE_HINT,
{
}

/// Forwarding law for immutable borrows: a borrow of a template renders
/// exactly the text of the template itself, on every store.
pub proof fn lemma_ref_forwards<T: Template>(t: &T, store: Map<Seq<char>, Value>)
    ensures
        <&T as Template>::output(&t, store) == t.output(store),
        <&T as Template>::succeeds(&t, store) == t.succeeds(store),
{
}

/// Forwarding law for exclusive borrows.
pub proof fn lemma_mut_forwards<T: Template>(t: &mut T, store: Map<Seq<char>, Value>)
    ensures
        <&mut T as Template>::output(&old(t), store) == (*old(t)).output(store),
        <&mut T as Template>::succeeds(&old(t), store) == (*old(t)).succeeds(store),
{
}

/// Forwarding law for owned boxes.
pub proof fn lemma_box_forwards<T: Template>(b: &Box<T>, store: Map<Seq<char>, Value>)
    ensures
        b.output(store) == (**b).output(store),
        b.succeeds(store) == (**b).succeeds(store),
{
}

/// Forwarding law for shared-ownership pointers.
pub proof fn lemma_rc_forwards<T: Template>(rc: &Rc<T>, store: Map<Seq<char>, Value>)
    ensures
        rc.output(store) == (**rc).output(store),
        rc.succeeds(store) == (**rc).succeeds(store),
{
}

/// Forwarding law for thread-safe shared-ownership pointers.
pub proof fn lemma_arc_forwards<T: Template>(arc: &Arc<T>, store: Map<Seq<char>, Value>)
    ensures
        arc.output(store) == (**arc).output(store),
        arc.succeeds(store) == (**arc).succeeds(store),
{
}

} // verus!
