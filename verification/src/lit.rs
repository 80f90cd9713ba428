use vstd::prelude::*;

verus! {

/// The bytes of `"%PDF-1.2\n%\xB5\xED\xAE\xFB\n"`.
pub open spec fn lit_header() -> Seq<u8> {
    seq![37u8, 80u8, 68u8, 70u8, 45u8, 49u8, 46u8, 50u8, 10u8, 37u8, 181u8, 237u8, 174u8, 251u8, 10u8]
}

pub fn push_header(out: &mut Vec<u8>)
    ensures
        final(out)@ == old(out)@ + lit_header(),
{
    out.push(37);
    out.push(80);
    out.push(68);
    out.push(70);
    out.push(45);
    out.push(49);
    out.push(46);
    out.push(50);
    out.push(10);
    out.push(37);
    out.push(181);
    out.push(237);
    out.push(174);
    out.push(251);
    out.push(10);
    proof {
        assert(out@ =~= old(out)@ + lit_header());
    }
}

/// The bytes of `" 0 obj\n"`.
pub open spec fn lit_obj_open_tail() -> Seq<u8> {
    seq![32u8, 48u8, 32u8, 111u8, 98u8, 106u8, 10u8]
}

pub fn push_obj_open_tail(out: &mut Vec<u8>)
    ensures
        final(out)@ == old(out)@ + lit_obj_open_tail(),
{
    out.push(32);
    out.push(48);
    out.push(32);
    out.push(111);
    out.push(98);
    out.push(106);
    out.push(10);
    proof {
        assert(out@ =~= old(out)@ + lit_obj_open_tail());
    }
}

/// The bytes of `"endobj\n"`.
pub open spec fn lit_endobj() -> Seq<u8> {
    seq![101u8, 110u8, 100u8, 111u8, 98u8, 106u8, 10u8]
}

pub fn push_endobj(out: &mut Vec<u8>)
    ensures
        final(out)@ == old(out)@ + lit_endobj(),
{
    out.push(101);
    out.push(110);
    out.push(100);
    out.push(111);
    out.push(98);
    out.push(106);
    out.push(10);
    proof {
        assert(out@ =~= old(out)@ + lit_endobj());
    }
}

/// The bytes of `"<< /Length "`.
pub open spec fn lit_stream_dict_open() -> Seq<u8> {
    seq![60u8, 60u8, 32u8, 47u8, 76u8, 101u8, 110u8, 103u8, 116u8, 104u8, 32u8]
}

pub fn push_stream_dict_open(out: &mut Vec<u8>)
    ensures
        final(out)@ == old(out)@ + lit_stream_dict_open(),
{
    out.push(60);
    out.push(60);
    out.push(32);
    out.push(47);
    out.push(76);
    out.push(101);
    out.push(110);
    out.push(103);
    out.push(116);
    out.push(104);
    out.push(32);
    proof {
        assert(out@ =~= old(out)@ + lit_stream_dict_open());
    }
}

/// The bytes of `" 0 R /Filter /FlateDecode>>\nstream\n"`.
pub open spec fn lit_stream_dict_close() -> Seq<u8> {
    seq![32u8, 48u8, 32u8, 82u8, 32u8, 47u8, 70u8, 105u8, 108u8, 116u8, 101u8, 114u8, 32u8, 47u8, 70u8, 108u8, 97u8, 116u8, 101u8, 68u8, 101u8, 99u8, 111u8, 100u8, 101u8, 62u8, 62u8, 10u8, 115u8, 116u8, 114u8, 101u8, 97u8, 109u8, 10u8]
}

#[verifier::rlimit(50)]
pub fn push_stream_dict_close(out: &mut Vec<u8>)
    ensures
        final(out)@ == old(out)@ + lit_stream_dict_close(),
{
    out.push(32);
    out.push(48);
    out.push(32);
    out.push(82);
    out.push(32);
    out.push(47);
    out.push(70);
    out.push(105);
    out.push(108);
    out.push(116);
    out.push(101);
    out.push(114);
    out.push(32);
    out.push(47);
    out.push(70);
    out.push(108);
    out.push(97);
    out.push(116);
    out.push(101);
    out.push(68);
    out.push(101);
    out.push(99);
    out.push(111);
    out.push(100);
    out.push(101);
    out.push(62);
    out.push(62);
    out.push(10);
    out.push(115);
    out.push(116);
    out.push(114);
    out.push(101);
    out.push(97);
    out.push(109);
    out.push(10);
    proof {
        assert(out@ =~= old(out)@ + lit_stream_dict_close());
    }
}

/// The bytes of `"\nendstream\n"`.
pub open spec fn lit_endstream() -> Seq<u8> {
    seq![10u8, 101u8, 110u8, 100u8, 115u8, 116u8, 114u8, 101u8, 97u8, 109u8, 10u8]
}

pub fn push_endstream(out: &mut Vec<u8>)
    ensures
        final(out)@ == old(out)@ + lit_endstream(),
{
    out.push(10);
    out.push(101);
    out.push(110);
    out.push(100);
    out.push(115);
    out.push(116);
    out.push(114);
    out.push(101);
    out.push(97);
    out.push(109);
    out.push(10);
    proof {
        assert(out@ =~= old(out)@ + lit_endstream());
    }
}

/// The bytes of `"/DeviceRGB cs /DeviceRGB CS\n"`.
pub open spec fn lit_device_rgb() -> Seq<u8> {
    seq![47u8, 68u8, 101u8, 118u8, 105u8, 99u8, 101u8, 82u8, 71u8, 66u8, 32u8, 99u8, 115u8, 32u8, 47u8, 68u8, 101u8, 118u8, 105u8, 99u8, 101u8, 82u8, 71u8, 66u8, 32u8, 67u8, 83u8, 10u8]
}

#[verifier::rlimit(50)]
pub fn push_device_rgb(out: &mut Vec<u8>)
    ensures
        final(out)@ == old(out)@ + lit_device_rgb(),
{
    out.push(47);
    out.push(68);
    out.push(101);
    out.push(118);
    out.push(105);
    out.push(99);
    out.push(101);
    out.push(82);
    out.push(71);
    out.push(66);
    out.push(32);
    out.push(99);
    out.push(115);
    out.push(32);
    out.push(47);
    out.push(68);
    out.push(101);
    out.push(118);
    out.push(105);
    out.push(99);
    out.push(101);
    out.push(82);
    out.push(71);
    out.push(66);
    out.push(32);
    out.push(67);
    out.push(83);
    out.push(10);
    proof {
        assert(out@ =~= old(out)@ + lit_device_rgb());
    }
}

/// The bytes of `"<< /Type /Page\n   /Parent 2 0 R\n   /MediaBox [ 0 0 "`.
pub open spec fn lit_page_dict_open() -> Seq<u8> {
    seq![60u8, 60u8, 32u8, 47u8, 84u8, 121u8, 112u8, 101u8, 32u8, 47u8, 80u8, 97u8, 103u8, 101u8, 10u8, 32u8, 32u8, 32u8, 47u8, 80u8, 97u8, 114u8, 101u8, 110u8, 116u8, 32u8, 50u8, 32u8, 48u8, 32u8, 82u8, 10u8, 32u8, 32u8, 32u8, 47u8, 77u8, 101u8, 100u8, 105u8, 97u8, 66u8, 111u8, 120u8, 32u8, 91u8, 32u8, 48u8, 32u8, 48u8, 32u8]
}

#[verifier::rlimit(50)]
pub fn push_page_dict_open(out: &mut Vec<u8>)
    ensures
        final(out)@ == old(out)@ + lit_page_dict_open(),
{
    out.push(60);
    out.push(60);
    out.push(32);
    out.push(47);
    out.push(84);
    out.push(121);
    out.push(112);
    out.push(101);
    out.push(32);
    out.push(47);
    out.push(80);
    out.push(97);
    out.push(103);
    out.push(101);
    out.push(10);
    out.push(32);
    out.push(32);
    out.push(32);
    out.push(47);
    out.push(80);
    out.push(97);
    out.push(114);
    out.push(101);
    out.push(110);
    out.push(116);
    out.push(32);
    out.push(50);
    out.push(32);
    out.push(48);
    out.push(32);
    out.push(82);
    out.push(10);
    out.push(32);
    out.push(32);
    out.push(32);
    out.push(47);
    out.push(77);
    out.push(101);
    out.push(100);
    out.push(105);
    out.push(97);
    out.push(66);
    out.push(111);
    out.push(120);
    out.push(32);
    out.push(91);
    out.push(32);
    out.push(48);
    out.push(32);
    out.push(48);
    out.push(32);
    proof {
        assert(out@ =~= old(out)@ + lit_page_dict_open());
    }
}

/// The bytes of `" ]\n   /Contents "`.
pub open spec fn lit_page_dict_mid() -> Seq<u8> {
    seq![32u8, 93u8, 10u8, 32u8, 32u8, 32u8, 47u8, 67u8, 111u8, 110u8, 116u8, 101u8, 110u8, 116u8, 115u8, 32u8]
}

pub fn push_page_dict_mid(out: &mut Vec<u8>)
    ensures
        final(out)@ == old(out)@ + lit_page_dict_mid(),
{
    out.push(32);
    out.push(93);
    out.push(10);
    out.push(32);
    out.push(32);
    out.push(32);
    out.push(47);
    out.push(67);
    out.push(111);
    out.push(110);
    out.push(116);
    out.push(101);
    out.push(110);
    out.push(116);
    out.push(115);
    out.push(32);
    proof {
        assert(out@ =~= old(out)@ + lit_page_dict_mid());
    }
}

/// The bytes of `" 0 R\n>>\n"`.
pub open spec fn lit_page_dict_close() -> Seq<u8> {
    seq![32u8, 48u8, 32u8, 82u8, 10u8, 62u8, 62u8, 10u8]
}

pub fn push_page_dict_close(out: &mut Vec<u8>)
    ensures
        final(out)@ == old(out)@ + lit_page_dict_close(),
{
    out.push(32);
    out.push(48);
    out.push(32);
    out.push(82);
    out.push(10);
    out.push(62);
    out.push(62);
    out.push(10);
    proof {
        assert(out@ =~= old(out)@ + lit_page_dict_close());
    }
}

/// The bytes of `"<< /Type /Pages\n   /Count "`.
pub open spec fn lit_pages_dict_open() -> Seq<u8> {
    seq![60u8, 60u8, 32u8, 47u8, 84u8, 121u8, 112u8, 101u8, 32u8, 47u8, 80u8, 97u8, 103u8, 101u8, 115u8, 10u8, 32u8, 32u8, 32u8, 47u8, 67u8, 111u8, 117u8, 110u8, 116u8, 32u8]
}

#[verifier::rlimit(50)]
pub fn push_pages_dict_open(out: &mut Vec<u8>)
    ensures
        final(out)@ == old(out)@ + lit_pages_dict_open(),
{
    out.push(60);
    out.push(60);
    out.push(32);
    out.push(47);
    out.push(84);
    out.push(121);
    out.push(112);
    out.push(101);
    out.push(32);
    out.push(47);
    out.push(80);
    out.push(97);
    out.push(103);
    out.push(101);
    out.push(115);
    out.push(10);
    out.push(32);
    out.push(32);
    out.push(32);
    out.push(47);
    out.push(67);
    out.push(111);
    out.push(117);
    out.push(110);
    out.push(116);
    out.push(32);
    proof {
        assert(out@ =~= old(out)@ + lit_pages_dict_open());
    }
}

/// The bytes of `"\n   /Kids [ "`.
pub open spec fn lit_kids_open() -> Seq<u8> {
    seq![10u8, 32u8, 32u8, 32u8, 47u8, 75u8, 105u8, 100u8, 115u8, 32u8, 91u8, 32u8]
}

pub fn push_kids_open(out: &mut Vec<u8>)
    ensures
        final(out)@ == old(out)@ + lit_kids_open(),
{
    out.push(10);
    out.push(32);
    out.push(32);
    out.push(32);
    out.push(47);
    out.push(75);
    out.push(105);
    out.push(100);
    out.push(115);
    out.push(32);
    out.push(91);
    out.push(32);
    proof {
        assert(out@ =~= old(out)@ + lit_kids_open());
    }
}

/// The bytes of `" 0 R "`.
pub open spec fn lit_kid_ref_tail() -> Seq<u8> {
    seq![32u8, 48u8, 32u8, 82u8, 32u8]
}

pub fn push_kid_ref_tail(out: &mut Vec<u8>)
    ensures
        final(out)@ == old(out)@ + lit_kid_ref_tail(),
{
    out.push(32);
    out.push(48);
    out.push(32);
    out.push(82);
    out.push(32);
    proof {
        assert(out@ =~= old(out)@ + lit_kid_ref_tail());
    }
}

/// The bytes of `"]\n>>\n"`.
pub open spec fn lit_kids_close() -> Seq<u8> {
    seq![93u8, 10u8, 62u8, 62u8, 10u8]
}

pub fn push_kids_close(out: &mut Vec<u8>)
    ensures
        final(out)@ == old(out)@ + lit_kids_close(),
{
    out.push(93);
    out.push(10);
    out.push(62);
    out.push(62);
    out.push(10);
    proof {
        assert(out@ =~= old(out)@ + lit_kids_close());
    }
}

/// The bytes of `"<< /Type /Catalog\n   /Pages 2 0 R\n>>\n"`.
pub open spec fn lit_catalog() -> Seq<u8> {
    seq![60u8, 60u8, 32u8, 47u8, 84u8, 121u8, 112u8, 101u8, 32u8, 47u8, 67u8, 97u8, 116u8, 97u8, 108u8, 111u8, 103u8, 10u8, 32u8, 32u8, 32u8, 47u8, 80u8, 97u8, 103u8, 101u8, 115u8, 32u8, 50u8, 32u8, 48u8, 32u8, 82u8, 10u8, 62u8, 62u8, 10u8]
}

#[verifier::rlimit(50)]
pub fn push_catalog(out: &mut Vec<u8>)
    ensures
        final(out)@ == old(out)@ + lit_catalog(),
{
    out.push(60);
    out.push(60);
    out.push(32);
    out.push(47);
    out.push(84);
    out.push(121);
    out.push(112);
    out.push(101);
    out.push(32);
    out.push(47);
    out.push(67);
    out.push(97);
    out.push(116);
    out.push(97);
    out.push(108);
    out.push(111);
    out.push(103);
    out.push(10);
    out.push(32);
    out.push(32);
    out.push(32);
    out.push(47);
    out.push(80);
    out.push(97);
    out.push(103);
    out.push(101);
    out.push(115);
    out.push(32);
    out.push(50);
    out.push(32);
    out.push(48);
    out.push(32);
    out.push(82);
    out.push(10);
    out.push(62);
    out.push(62);
    out.push(10);
    proof {
        assert(out@ =~= old(out)@ + lit_catalog());
    }
}

/// The bytes of `"xref\n0 "`.
pub open spec fn lit_xref_open() -> Seq<u8> {
    seq![120u8, 114u8, 101u8, 102u8, 10u8, 48u8, 32u8]
}

pub fn push_xref_open(out: &mut Vec<u8>)
    ensures
        final(out)@ == old(out)@ + lit_xref_open(),
{
    out.push(120);
    out.push(114);
    out.push(101);
    out.push(102);
    out.push(10);
    out.push(48);
    out.push(32);
    proof {
        assert(out@ =~= old(out)@ + lit_xref_open());
    }
}

/// The bytes of `"\n0000000000 65535 f \n"`.
pub open spec fn lit_xref_free() -> Seq<u8> {
    seq![10u8, 48u8, 48u8, 48u8, 48u8, 48u8, 48u8, 48u8, 48u8, 48u8, 48u8, 32u8, 54u8, 53u8, 53u8, 51u8, 53u8, 32u8, 102u8, 32u8, 10u8]
}

#[verifier::rlimit(50)]
pub fn push_xref_free(out: &mut Vec<u8>)
    ensures
        final(out)@ == old(out)@ + lit_xref_free(),
{
    out.push(10);
    out.push(48);
    out.push(48);
    out.push(48);
    out.push(48);
    out.push(48);
    out.push(48);
    out.push(48);
    out.push(48);
    out.push(48);
    out.push(48);
    out.push(32);
    out.push(54);
    out.push(53);
    out.push(53);
    out.push(51);
    out.push(53);
    out.push(32);
    out.push(102);
    out.push(32);
    out.push(10);
    proof {
        assert(out@ =~= old(out)@ + lit_xref_free());
    }
}

/// The bytes of `" 00000 n \n"`.
pub open spec fn lit_xref_entry_tail() -> Seq<u8> {
    seq![32u8, 48u8, 48u8, 48u8, 48u8, 48u8, 32u8, 110u8, 32u8, 10u8]
}

pub fn push_xref_entry_tail(out: &mut Vec<u8>)
    ensures
        final(out)@ == old(out)@ + lit_xref_entry_tail(),
{
    out.push(32);
    out.push(48);
    out.push(48);
    out.push(48);
    out.push(48);
    out.push(48);
    out.push(32);
    out.push(110);
    out.push(32);
    out.push(10);
    proof {
        assert(out@ =~= old(out)@ + lit_xref_entry_tail());
    }
}

/// The bytes of `"trailer\n<< /Size "`.
pub open spec fn lit_trailer_open() -> Seq<u8> {
    seq![116u8, 114u8, 97u8, 105u8, 108u8, 101u8, 114u8, 10u8, 60u8, 60u8, 32u8, 47u8, 83u8, 105u8, 122u8, 101u8, 32u8]
}

pub fn push_trailer_open(out: &mut Vec<u8>)
    ensures
        final(out)@ == old(out)@ + lit_trailer_open(),
{
    out.push(116);
    out.push(114);
    out.push(97);
    out.push(105);
    out.push(108);
    out.push(101);
    out.push(114);
    out.push(10);
    out.push(60);
    out.push(60);
    out.push(32);
    out.push(47);
    out.push(83);
    out.push(105);
    out.push(122);
    out.push(101);
    out.push(32);
    proof {
        assert(out@ =~= old(out)@ + lit_trailer_open());
    }
}

/// The bytes of `"\n   /Root 1 0 R\n>>\nstartxref\n"`.
pub open spec fn lit_trailer_mid() -> Seq<u8> {
    seq![10u8, 32u8, 32u8, 32u8, 47u8, 82u8, 111u8, 111u8, 116u8, 32u8, 49u8, 32u8, 48u8, 32u8, 82u8, 10u8, 62u8, 62u8, 10u8, 115u8, 116u8, 97u8, 114u8, 116u8, 120u8, 114u8, 101u8, 102u8, 10u8]
}

#[verifier::rlimit(50)]
pub fn push_trailer_mid(out: &mut Vec<u8>)
    ensures
        final(out)@ == old(out)@ + lit_trailer_mid(),
{
    out.push(10);
    out.push(32);
    out.push(32);
    out.push(32);
    out.push(47);
    out.push(82);
    out.push(111);
    out.push(111);
    out.push(116);
    out.push(32);
    out.push(49);
    out.push(32);
    out.push(48);
    out.push(32);
    out.push(82);
    out.push(10);
    out.push(62);
    out.push(62);
    out.push(10);
    out.push(115);
    out.push(116);
    out.push(97);
    out.push(114);
    out.push(116);
    out.push(120);
    out.push(114);
    out.push(101);
    out.push(102);
    out.push(10);
    proof {
        assert(out@ =~= old(out)@ + lit_trailer_mid());
    }
}

/// The bytes of `"\n%%EOF\n"`.
pub open spec fn lit_trailer_end() -> Seq<u8> {
    seq![10u8, 37u8, 37u8, 69u8, 79u8, 70u8, 10u8]
}

pub fn push_trailer_end(out: &mut Vec<u8>)
    ensures
        final(out)@ == old(out)@ + lit_trailer_end(),
{
    out.push(10);
    out.push(37);
    out.push(37);
    out.push(69);
    out.push(79);
    out.push(70);
    out.push(10);
    proof {
        assert(out@ =~= old(out)@ + lit_trailer_end());
    }
}

/// The bytes of `" SC\n"`.
pub open spec fn lit_op_stroke_color() -> Seq<u8> {
    seq![32u8, 83u8, 67u8, 10u8]
}

pub fn push_op_stroke_color(out: &mut Vec<u8>)
    ensures
        final(out)@ == old(out)@ + lit_op_stroke_color(),
{
    out.push(32);
    out.push(83);
    out.push(67);
    out.push(10);
    proof {
        assert(out@ =~= old(out)@ + lit_op_stroke_color());
    }
}

/// The bytes of `" sc\n"`.
pub open spec fn lit_op_fill_color() -> Seq<u8> {
    seq![32u8, 115u8, 99u8, 10u8]
}

pub fn push_op_fill_color(out: &mut Vec<u8>)
    ensures
        final(out)@ == old(out)@ + lit_op_fill_color(),
{
    out.push(32);
    out.push(115);
    out.push(99);
    out.push(10);
    proof {
        assert(out@ =~= old(out)@ + lit_op_fill_color());
    }
}

/// The bytes of `" m "`.
pub open spec fn lit_op_move() -> Seq<u8> {
    seq![32u8, 109u8, 32u8]
}

pub fn push_op_move(out: &mut Vec<u8>)
    ensures
        final(out)@ == old(out)@ + lit_op_move(),
{
    out.push(32);
    out.push(109);
    out.push(32);
    proof {
        assert(out@ =~= old(out)@ + lit_op_move());
    }
}

/// The bytes of `" l "`.
pub open spec fn lit_op_line() -> Seq<u8> {
    seq![32u8, 108u8, 32u8]
}

pub fn push_op_line(out: &mut Vec<u8>)
    ensures
        final(out)@ == old(out)@ + lit_op_line(),
{
    out.push(32);
    out.push(108);
    out.push(32);
    proof {
        assert(out@ =~= old(out)@ + lit_op_line());
    }
}

/// The bytes of `"S\n"`.
pub open spec fn lit_op_stroke() -> Seq<u8> {
    seq![83u8, 10u8]
}

pub fn push_op_stroke(out: &mut Vec<u8>)
    ensures
        final(out)@ == old(out)@ + lit_op_stroke(),
{
    out.push(83);
    out.push(10);
    proof {
        assert(out@ =~= old(out)@ + lit_op_stroke());
    }
}

/// The bytes of `" c\n"`.
pub open spec fn lit_op_curve() -> Seq<u8> {
    seq![32u8, 99u8, 10u8]
}

pub fn push_op_curve(out: &mut Vec<u8>)
    ensures
        final(out)@ == old(out)@ + lit_op_curve(),
{
    out.push(32);
    out.push(99);
    out.push(10);
    proof {
        assert(out@ =~= old(out)@ + lit_op_curve());
    }
}

/// The bytes of `"f\n"`.
pub open spec fn lit_op_fill() -> Seq<u8> {
    seq![102u8, 10u8]
}

pub fn push_op_fill(out: &mut Vec<u8>)
    ensures
        final(out)@ == old(out)@ + lit_op_fill(),
{
    out.push(102);
    out.push(10);
    proof {
        assert(out@ =~= old(out)@ + lit_op_fill());
    }
}

/// The bytes of `" "`.
pub open spec fn lit_space() -> Seq<u8> {
    seq![32u8]
}

pub fn push_space(out: &mut Vec<u8>)
    ensures
        final(out)@ == old(out)@ + lit_space(),
{
    out.push(32);
    proof {
        assert(out@ =~= old(out)@ + lit_space());
    }
}

/// The bytes of `"\n"`.
pub open spec fn lit_newline() -> Seq<u8> {
    seq![10u8]
}

pub fn push_newline(out: &mut Vec<u8>)
    ensures
        final(out)@ == old(out)@ + lit_newline(),
{
    out.push(10);
    proof {
        assert(out@ =~= old(out)@ + lit_newline());
    }
}

} // verus!
