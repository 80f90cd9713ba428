use vstd::prelude::*;

use crate::lit::{lit_catalog, lit_endobj, lit_endstream, lit_header, lit_kid_ref_tail,
    lit_kids_close, lit_kids_open, lit_newline, lit_obj_open_tail, lit_page_dict_close,
    lit_page_dict_mid, lit_page_dict_open, lit_pages_dict_open, lit_space,
    lit_stream_dict_close, lit_stream_dict_open, lit_trailer_end, lit_trailer_mid,
    lit_trailer_open, lit_xref_entry_tail, lit_xref_free, lit_xref_open, push_catalog,
    push_endstream, push_header, push_kid_ref_tail, push_kids_close, push_kids_open,
    push_newline, push_obj_open_tail, push_endobj, push_page_dict_close, push_page_dict_mid,
    push_page_dict_open, push_pages_dict_open, push_space, push_stream_dict_close,
    push_stream_dict_open, push_trailer_end, push_trailer_mid, push_trailer_open,
    push_xref_entry_tail, push_xref_free, push_xref_open};
use crate::numfmt::{dec_digits, dec_mpt, dec_width, push_bytes, push_dec, push_dec_width,
    push_mpt};

verus! {

/// The fixed identifier of the document catalog.
pub const ROOT_OBJECT_ID: u64 = 1;

/// The fixed identifier of the pages-tree object.
pub const PAGES_OBJECT_ID: u64 = 2;

/// The sentinel offset of an object not yet written. A real object can never
/// stand at offset 0: the file header occupies the first bytes of the output.
pub const UNWRITTEN: u64 = 0;

/// What flate2's `ZlibEncoder` at the default level returns for the given
/// input: a fixed function of the input bytes alone.
pub uninterp spec fn zlib_of(data: Seq<u8>) -> Seq<u8>;

/// What flate2's decoder returns for the given zlib stream.
pub uninterp spec fn unzlib_of(data: Seq<u8>) -> Seq<u8>;

/// Relies on flate2's `write::ZlibEncoder` with `Compression::default()`:
/// the compressed bytes depend on the input bytes alone, and inflating them
/// gives back exactly the bytes that were compressed. The encoder writes to
/// an in-memory sink, which cannot fail.
#[verifier::external_body]
fn zlib_compress(data: &Vec<u8>) -> (r: Vec<u8>)
    ensures
        r@ == zlib_of(data@),
        unzlib_of(r@) == data@,
{
    let mut encoder = flate2::write::ZlibEncoder::new(
        Vec::new(),
        flate2::Compression::default(),
    );
    std::io::Write::write_all(&mut encoder, data.as_slice()).expect("a Vec sink cannot fail");
    encoder.finish().expect("a Vec sink cannot fail")
}

/// The bytes of `"{id} 0 obj\n"`, the marker that opens an object.
pub open spec fn obj_marker(id: nat) -> Seq<u8> {
    dec_digits(id) + lit_obj_open_tail()
}

/// A whole object: its marker, its body, and the closing `"endobj\n"`.
pub open spec fn obj_bytes(id: nat, body: Seq<u8>) -> Seq<u8> {
    obj_marker(id) + body + lit_endobj()
}

/// The marker of object `id` stands at byte offset `off` of `s`.
pub open spec fn marker_at(s: Seq<u8>, off: int, id: nat) -> bool {
    &&& 0 <= off
    &&& off + obj_marker(id).len() <= s.len()
    &&& s.subrange(off, off + obj_marker(id).len() as int) == obj_marker(id)
}

/// The operators of one content stream: the color-space declaration,
/// then what the canvas drew.
pub open spec fn full_ops(ops: Seq<u8>) -> Seq<u8> {
    crate::lit::lit_device_rgb() + ops
}

/// The body of a content-stream object with identifier `id`: a dictionary
/// declaring the Flate filter and an indirect length reference to the next
/// identifier, then the compressed operators.
pub open spec fn stream_obj_body(id: nat, ops: Seq<u8>) -> Seq<u8> {
    lit_stream_dict_open() + dec_digits(id + 1) + lit_stream_dict_close() + zlib_of(ops)
        + lit_endstream()
}

/// The body of a length object: the byte count and a newline.
pub open spec fn length_obj_body(n: nat) -> Seq<u8> {
    dec_digits(n) + lit_newline()
}

/// The body of a page object: parent, media box, content reference.
pub open spec fn page_obj_body(width: int, height: int, content_id: nat) -> Seq<u8> {
    lit_page_dict_open() + dec_mpt(width) + lit_space() + dec_mpt(height) + lit_page_dict_mid()
        + dec_digits(content_id) + lit_page_dict_close()
}

/// The kid references of the pages tree, one per page, in order.
pub open spec fn kids_bytes(pages: Seq<u64>) -> Seq<u8>
    decreases pages.len(),
{
    if pages.len() == 0 {
        Seq::empty()
    } else {
        kids_bytes(pages.drop_last()) + dec_digits(pages.last() as nat) + lit_kid_ref_tail()
    }
}

/// The body of the pages-tree object: the page count, then every page
/// identifier in order.
pub open spec fn pages_obj_body(pages: Seq<u64>) -> Seq<u8> {
    lit_pages_dict_open() + dec_digits(pages.len()) + lit_kids_open() + kids_bytes(pages)
        + lit_kids_close()
}

/// One cross-reference line: the offset padded to ten digits, then the
/// fixed in-use suffix.
pub open spec fn xref_entry(off: u64) -> Seq<u8> {
    dec_width(off as nat, 10) + lit_xref_entry_tail()
}

/// The cross-reference lines of objects 1 onward, in order.
pub open spec fn xref_entries(offsets: Seq<u64>) -> Seq<u8>
    decreases offsets.len(),
{
    if offsets.len() == 0 {
        Seq::empty()
    } else {
        xref_entries(offsets.drop_last()) + xref_entry(offsets.last())
    }
}

/// The whole cross-reference section: the header line declaring the object
/// range, the fixed free entry for object 0, then one line per object.
pub open spec fn xref_bytes(offsets: Seq<u64>) -> Seq<u8> {
    lit_xref_open() + dec_digits(offsets.len()) + lit_xref_free() + xref_entries(
        offsets.subrange(1, offsets.len() as int),
    )
}

/// The trailer: the object count, the root reference, and the byte offset
/// of the cross-reference section.
pub open spec fn trailer_bytes(count: nat, startxref: nat) -> Seq<u8> {
    lit_trailer_open() + dec_digits(count) + lit_trailer_mid() + dec_digits(startxref)
        + lit_trailer_end()
}

/// Appending to the output moves no object marker.
pub proof fn lemma_marker_at_append(s: Seq<u8>, t: Seq<u8>, off: int, id: nat)
    requires
        marker_at(s, off, id),
    ensures
        marker_at(s + t, off, id),
{
    assert((s + t).subrange(off, off + obj_marker(id).len() as int) =~= s.subrange(
        off,
        off + obj_marker(id).len() as int,
    ));
}

/// An object appended at the end of the output carries its marker right at
/// the old end.
pub proof fn lemma_marker_at_obj(s: Seq<u8>, id: nat, body: Seq<u8>)
    ensures
        marker_at(s + obj_bytes(id, body), s.len() as int, id),
{
    assert((s + obj_bytes(id, body)).subrange(
        s.len() as int,
        s.len() + obj_marker(id).len() as int,
    ) =~= obj_marker(id));
}

/// An incremental PDF object writer.
///
/// Owns the output byte stream, assigns sequential object identifiers,
/// records each object's byte offset as it is written, and on `finish`
/// emits the pages tree, the catalog, the cross-reference table and the
/// trailer.
pub struct Pdf {
    output: Vec<u8>,
    object_offsets: Vec<u64>,
    page_objects_ids: Vec<u64>,
}

impl Pdf {
    /// The bytes written so far.
    pub closed spec fn out(&self) -> Seq<u8> {
        self.output@
    }

    /// The recorded byte offset of each object, indexed by identifier;
    /// `UNWRITTEN` where the object is not yet written.
    pub closed spec fn offsets(&self) -> Seq<u64> {
        self.object_offsets@
    }

    /// The identifiers of the page objects, one per output page, in order.
    pub closed spec fn pages(&self) -> Seq<u64> {
        self.page_objects_ids@
    }

    /// The writer's bookkeeping invariant: identifier 0 is never written;
    /// the output starts with the file header; every recorded offset lands
    /// exactly on the matching object marker; every identifier past the two
    /// reserved ones is written as soon as it is allocated; and every page
    /// identifier names an allocated object.
    pub open spec fn wf(&self) -> bool {
        &&& 3 <= self.offsets().len()
        &&& self.offsets()[0] == UNWRITTEN
        &&& lit_header().is_prefix_of(self.out())
        &&& forall|i: int|
            #![trigger self.offsets()[i]]
            1 <= i < self.offsets().len() && self.offsets()[i] != UNWRITTEN ==> marker_at(
                self.out(),
                self.offsets()[i] as int,
                i as nat,
            )
        &&& forall|i: int|
            #![trigger self.offsets()[i]]
            3 <= i < self.offsets().len() ==> self.offsets()[i] != UNWRITTEN
        &&& forall|i: int|
            #![trigger self.pages()[i]]
            0 <= i < self.pages().len() ==> 3 <= self.pages()[i] < self.offsets().len()
    }

    /// Create a new PDF document: write the file signature, and reserve
    /// identifiers 0 (the free-list head), 1 (the catalog) and 2 (the
    /// pages tree).
    pub fn new() -> (pdf: Pdf)
        ensures
            pdf.wf(),
            pdf.out() == lit_header(),
            pdf.offsets() == seq![UNWRITTEN, UNWRITTEN, UNWRITTEN],
            pdf.pages() == Seq::<u64>::empty(),
    {
        let mut output: Vec<u8> = Vec::new();
        push_header(&mut output);
        let mut object_offsets: Vec<u64> = Vec::new();
        object_offsets.push(UNWRITTEN);
        object_offsets.push(UNWRITTEN);
        object_offsets.push(UNWRITTEN);
        let pdf = Pdf { output, object_offsets, page_objects_ids: Vec::new() };
        proof {
            assert(pdf.out() =~= lit_header());
            assert(pdf.offsets() =~= seq![UNWRITTEN, UNWRITTEN, UNWRITTEN]);
            assert(pdf.pages() =~= Seq::<u64>::empty());
        }
        pdf
    }

    /// Write one object: capture the current position, delimit the body by
    /// the `obj` and `endobj` markers, and return the captured offset.
    fn write_object(&mut self, id: u64, body: &Vec<u8>) -> (offset: u64)
        ensures
            offset as int == old(self).out().len(),
            final(self).out() == old(self).out() + obj_bytes(id as nat, body@),
            final(self).offsets() == old(self).offsets(),
            final(self).pages() == old(self).pages(),
            marker_at(final(self).out(), offset as int, id as nat),
    {
        let offset = self.output.len() as u64;
        push_dec(&mut self.output, id);
        push_obj_open_tail(&mut self.output);
        push_bytes(&mut self.output, body);
        push_endobj(&mut self.output);
        proof {
            assert(self.out() =~= old(self).out() + obj_bytes(id as nat, body@));
            lemma_marker_at_obj(old(self).out(), id as nat, body@);
        }
        offset
    }

    /// Write one object under the next free identifier, record its offset,
    /// and return the identifier.
    fn write_new_object(&mut self, body: &Vec<u8>) -> (id: u64)
        requires
            old(self).wf(),
        ensures
            final(self).wf(),
            id as int == old(self).offsets().len(),
            final(self).out() == old(self).out() + obj_bytes(id as nat, body@),
            final(self).offsets() == old(self).offsets().push(old(self).out().len() as u64),
            final(self).pages() == old(self).pages(),
    {
        let id = self.object_offsets.len() as u64;
        let offset = self.write_object(id, body);
        self.object_offsets.push(offset);
        proof {
            assert(offset != UNWRITTEN);
            assert forall|i: int|
                1 <= i < self.offsets().len() && #[trigger] self.offsets()[i]
                    != UNWRITTEN implies marker_at(
                self.out(),
                self.offsets()[i] as int,
                i as nat,
            ) by {
                if i < old(self).offsets().len() {
                    lemma_marker_at_append(
                        old(self).out(),
                        obj_bytes(id as nat, body@),
                        self.offsets()[i] as int,
                        i as nat,
                    );
                }
            }
            assert(lit_header().is_prefix_of(self.out())) by {
                assert((old(self).out() + obj_bytes(id as nat, body@)).subrange(
                    0,
                    lit_header().len() as int,
                ) =~= old(self).out().subrange(0, lit_header().len() as int));
            }
        }
        id
    }

    /// Write one object under an identifier reserved earlier; the slot must
    /// still be unwritten, which rules out double writes.
    fn write_object_with_id(&mut self, id: u64, body: &Vec<u8>)
        requires
            old(self).wf(),
            1 <= id < old(self).offsets().len(),
            old(self).offsets()[id as int] == UNWRITTEN,
        ensures
            final(self).wf(),
            final(self).out() == old(self).out() + obj_bytes(id as nat, body@),
            final(self).offsets() == old(self).offsets().update(
                id as int,
                old(self).out().len() as u64,
            ),
            final(self).pages() == old(self).pages(),
    {
        let offset = self.write_object(id, body);
        let idx = id as usize;
        self.object_offsets[idx] = offset;
        proof {
            assert(offset != UNWRITTEN);
            assert forall|i: int|
                1 <= i < self.offsets().len() && #[trigger] self.offsets()[i]
                    != UNWRITTEN implies marker_at(
                self.out(),
                self.offsets()[i] as int,
                i as nat,
            ) by {
                if i != id as int {
                    lemma_marker_at_append(
                        old(self).out(),
                        obj_bytes(id as nat, body@),
                        self.offsets()[i] as int,
                        i as nat,
                    );
                }
            }
            assert(lit_header().is_prefix_of(self.out())) by {
                assert((old(self).out() + obj_bytes(id as nat, body@)).subrange(
                    0,
                    lit_header().len() as int,
                ) =~= old(self).out().subrange(0, lit_header().len() as int));
            }
        }
    }
    /// Write one content stream: the stream object whose dictionary declares
    /// the Flate filter and a forward length reference to the next
    /// identifier, then the length object holding the measured compressed
    /// byte count. The length object's identifier equals the content
    /// object's identifier plus one; the returned identifier can be reused
    /// across pages. Decompressing the stream body yields byte-for-byte the
    /// color-space declaration followed by the given canvas operators.
    pub fn write_stream(&mut self, ops: &Vec<u8>) -> (content_id: u64)
        requires
            old(self).wf(),
            old(self).offsets().len() + 1 < u64::MAX,
        ensures
            final(self).wf(),
            content_id as int == old(self).offsets().len(),
            final(self).out() == old(self).out() + obj_bytes(
                content_id as nat,
                stream_obj_body(content_id as nat, full_ops(ops@)),
            ) + obj_bytes(
                content_id as nat + 1,
                length_obj_body(zlib_of(full_ops(ops@)).len()),
            ),
            final(self).offsets() == old(self).offsets().push(old(self).out().len() as u64).push(
                (old(self).out().len() + obj_bytes(
                    content_id as nat,
                    stream_obj_body(content_id as nat, full_ops(ops@)),
                ).len()) as u64,
            ),
            final(self).pages() == old(self).pages(),
            unzlib_of(zlib_of(full_ops(ops@))) == full_ops(ops@),
    {
        let mut full: Vec<u8> = Vec::new();
        crate::lit::push_device_rgb(&mut full);
        push_bytes(&mut full, ops);
        proof {
            assert(full@ =~= full_ops(ops@));
        }
        let compressed = zlib_compress(&full);
        let content_id = self.object_offsets.len() as u64;
        let mut body: Vec<u8> = Vec::new();
        push_stream_dict_open(&mut body);
        push_dec(&mut body, content_id + 1);
        push_stream_dict_close(&mut body);
        push_bytes(&mut body, &compressed);
        push_endstream(&mut body);
        proof {
            assert(body@ =~= stream_obj_body(content_id as nat, full_ops(ops@)));
        }
        let stream_id = self.write_new_object(&body);
        let mut len_body: Vec<u8> = Vec::new();
        push_dec(&mut len_body, compressed.len() as u64);
        push_newline(&mut len_body);
        proof {
            assert(len_body@ =~= length_obj_body(zlib_of(full_ops(ops@)).len()));
        }
        let length_id = self.write_new_object(&len_body);
        proof {
            assert(length_id == content_id + 1);
            assert(self.out() =~= old(self).out() + obj_bytes(
                content_id as nat,
                stream_obj_body(content_id as nat, full_ops(ops@)),
            ) + obj_bytes(
                content_id as nat + 1,
                length_obj_body(zlib_of(full_ops(ops@)).len()),
            ));
        }
        content_id
    }

    /// Create a new page object of the given size whose content is the
    /// stream written under `content_oid`, and append its identifier to the
    /// page list `repeat` times: the one drawn page stamps that many output
    /// pages.
    pub fn write_page_with_obj(&mut self, width: i64, height: i64, content_oid: u64, repeat: usize)
        requires
            old(self).wf(),
            width > i64::MIN,
            height > i64::MIN,
            3 <= content_oid < old(self).offsets().len(),
        ensures
            final(self).wf(),
            final(self).out() == old(self).out() + obj_bytes(
                old(self).offsets().len() as nat,
                page_obj_body(width as int, height as int, content_oid as nat),
            ),
            final(self).offsets() == old(self).offsets().push(old(self).out().len() as u64),
            final(self).pages() == old(self).pages() + Seq::new(
                repeat as nat,
                |k: int| old(self).offsets().len() as u64,
            ),
    {
        let mut body: Vec<u8> = Vec::new();
        push_page_dict_open(&mut body);
        push_mpt(&mut body, width);
        push_space(&mut body);
        push_mpt(&mut body, height);
        push_page_dict_mid(&mut body);
        push_dec(&mut body, content_oid);
        push_page_dict_close(&mut body);
        proof {
            assert(body@ =~= page_obj_body(width as int, height as int, content_oid as nat));
        }
        let page_oid = self.write_new_object(&body);
        let ghost mid = *self;
        let mut i: usize = 0;
        while i < repeat
            invariant
                i <= repeat,
                3 <= page_oid < mid.offsets().len(),
                self.out() == mid.out(),
                self.offsets() == mid.offsets(),
                self.pages() == mid.pages() + Seq::new(i as nat, |k: int| page_oid),
                mid.wf(),
            decreases repeat - i,
        {
            self.page_objects_ids.push(page_oid);
            i += 1;
            proof {
                assert(self.pages() =~= mid.pages() + Seq::new(i as nat, |k: int| page_oid));
            }
        }
        proof {
            assert(Seq::new(repeat as nat, |k: int| page_oid) =~= Seq::new(
                repeat as nat,
                |k: int| old(self).offsets().len() as u64,
            ));
            assert(self.wf());
        }
    }
    /// Write out the document trailer and hand the finished byte stream
    /// back: the pages tree at its reserved identifier (Count and Kids in
    /// page order), the catalog at its reserved identifier, the
    /// cross-reference section, and the trailer with the recorded
    /// `startxref` position. Every recorded offset, the two reserved ones
    /// now filled in, lands exactly on the matching object marker.
    pub fn finish(self) -> (doc: Vec<u8>)
        requires
            self.wf(),
            self.offsets()[1] == UNWRITTEN,
            self.offsets()[2] == UNWRITTEN,
        ensures
            doc@ == finished_doc(self.out(), self.offsets(), self.pages()),
            forall|i: int|
                #![trigger finished_offsets(self.out(), self.offsets(), self.pages())[i]]
                1 <= i < self.offsets().len() ==> marker_at(
                    doc@,
                    finished_offsets(self.out(), self.offsets(), self.pages())[i] as int,
                    i as nat,
                ),
    {
        let mut this = self;
        let ghost orig = this;
        // the pages-tree object, at its reserved identifier
        let mut pbody: Vec<u8> = Vec::new();
        push_pages_dict_open(&mut pbody);
        push_dec(&mut pbody, this.page_objects_ids.len() as u64);
        push_kids_open(&mut pbody);
        let ghost pseq = this.pages();
        let npages = this.page_objects_ids.len();
        let mut i: usize = 0;
        while i < npages
            invariant
                i <= npages,
                npages == pseq.len(),
                this.pages() == pseq,
                pbody@ == lit_pages_dict_open() + dec_digits(pseq.len()) + lit_kids_open()
                    + kids_bytes(pseq.subrange(0, i as int)),
            decreases npages - i,
        {
            let id = this.page_objects_ids[i];
            push_dec(&mut pbody, id);
            push_kid_ref_tail(&mut pbody);
            i += 1;
            proof {
                assert(pseq.subrange(0, i as int).drop_last() =~= pseq.subrange(0, i - 1));
                assert(pseq.subrange(0, i as int).last() == pseq[i - 1]);
                assert(pbody@ =~= lit_pages_dict_open() + dec_digits(pseq.len()) + lit_kids_open()
                    + kids_bytes(pseq.subrange(0, i as int)));
            }
        }
        push_kids_close(&mut pbody);
        proof {
            assert(pseq.subrange(0, pseq.len() as int) =~= pseq);
            assert(pbody@ =~= pages_obj_body(pseq));
        }
        this.write_object_with_id(PAGES_OBJECT_ID, &pbody);
        // the catalog, at its reserved identifier
        let mut cbody: Vec<u8> = Vec::new();
        push_catalog(&mut cbody);
        proof {
            assert(cbody@ =~= lit_catalog());
        }
        this.write_object_with_id(ROOT_OBJECT_ID, &cbody);
        let ghost offs = this.offsets();
        proof {
            assert(offs =~= finished_offsets(orig.out(), orig.offsets(), orig.pages()));
        }
        // the cross-reference section
        let startxref = this.output.len() as u64;
        push_xref_open(&mut this.output);
        push_dec(&mut this.output, this.object_offsets.len() as u64);
        push_xref_free(&mut this.output);
        let ghost base = this.out();
        let ghost tail = offs.subrange(1, offs.len() as int);
        let n = this.object_offsets.len();
        let mut j: usize = 1;
        while j < n
            invariant
                1 <= j <= n,
                n == offs.len(),
                this.offsets() == offs,
                this.pages() == pseq,
                this.out() == base + xref_entries(offs.subrange(1, j as int)),
            decreases n - j,
        {
            let off = this.object_offsets[j];
            push_dec_width(&mut this.output, off, 10);
            push_xref_entry_tail(&mut this.output);
            j += 1;
            proof {
                assert(offs.subrange(1, j as int).drop_last() =~= offs.subrange(1, j - 1));
                assert(offs.subrange(1, j as int).last() == offs[j - 1]);
                assert(this.out() =~= base + xref_entries(offs.subrange(1, j as int)));
            }
        }
        // the trailer
        push_trailer_open(&mut this.output);
        push_dec(&mut this.output, n as u64);
        push_trailer_mid(&mut this.output);
        push_dec(&mut this.output, startxref);
        push_trailer_end(&mut this.output);
        proof {
            assert(this.out() =~= finished_doc(orig.out(), orig.offsets(), orig.pages()));
            let whole = this.out();
            assert forall|i: int|
                1 <= i < orig.offsets().len() implies marker_at(
                whole,
                #[trigger] finished_offsets(orig.out(), orig.offsets(), orig.pages())[i] as int,
                i as nat,
            ) by {
                let mid1 = orig.out() + obj_bytes(2, pages_obj_body(orig.pages()));
                let mid2 = mid1 + obj_bytes(1, lit_catalog());
                if i == 2 {
                    lemma_marker_at_obj(orig.out(), 2, pages_obj_body(orig.pages()));
                    lemma_marker_at_append(
                        mid1,
                        obj_bytes(1, lit_catalog()),
                        finished_offsets(orig.out(), orig.offsets(), orig.pages())[i] as int,
                        2,
                    );
                } else if i == 1 {
                    lemma_marker_at_obj(mid1, 1, lit_catalog());
                } else {
                    lemma_marker_at_append(
                        orig.out(),
                        obj_bytes(2, pages_obj_body(orig.pages())),
                        finished_offsets(orig.out(), orig.offsets(), orig.pages())[i] as int,
                        i as nat,
                    );
                    lemma_marker_at_append(
                        mid1,
                        obj_bytes(1, lit_catalog()),
                        finished_offsets(orig.out(), orig.offsets(), orig.pages())[i] as int,
                        i as nat,
                    );
                }
                let fo = finished_offsets(orig.out(), orig.offsets(), orig.pages());
                assert(whole =~= mid2 + (xref_bytes(fo) + trailer_bytes(
                    orig.offsets().len(),
                    mid2.len() as nat,
                )));
                lemma_marker_at_append(
                    mid2,
                    xref_bytes(fo) + trailer_bytes(
                        orig.offsets().len(),
                        mid2.len() as nat,
                    ),
                    finished_offsets(orig.out(), orig.offsets(), orig.pages())[i] as int,
                    i as nat,
                );
            }
        }
        this.output
    }
}

/// The offsets table as the trailer records it: the writer's table with the
/// pages tree and the catalog filled in at their reserved identifiers.
pub open spec fn finished_offsets(out: Seq<u8>, offsets: Seq<u64>, pages: Seq<u64>) -> Seq<u64> {
    offsets.update(2, out.len() as u64).update(
        1,
        (out.len() + obj_bytes(2, pages_obj_body(pages)).len()) as u64,
    )
}

/// The complete document a writer with the given output, offsets table and
/// page list produces on `finish`: the bytes written so far, the pages
/// tree, the catalog, the cross-reference section, and the trailer.
pub open spec fn finished_doc(out: Seq<u8>, offsets: Seq<u64>, pages: Seq<u64>) -> Seq<u8> {
    let with_objs = out + obj_bytes(2, pages_obj_body(pages)) + obj_bytes(1, lit_catalog());
    with_objs + xref_bytes(finished_offsets(out, offsets, pages)) + trailer_bytes(
        offsets.len(),
        with_objs.len() as nat,
    )
}

/// Parsing a cross-reference line gives back exactly the offset recorded
/// in it, whenever the offset fits the ten-digit field.
pub proof fn lemma_xref_entry_parses(off: u64)
    requires
        (off as nat) < crate::numfmt::pow10(10),
    ensures
        crate::numfmt::parse_dec(xref_entry(off).subrange(0, 10)) == off,
{
    crate::numfmt::lemma_dec_width_len(off as nat, 10);
    assert(xref_entry(off).subrange(0, 10) =~= dec_width(off as nat, 10));
    crate::numfmt::lemma_dec_width_parses(off as nat, 10);
}

} // verus!
