//! The extension table of file names, stated entry by entry: each
//! extension, in any letter case, implies the MIME type of its format.
use vstd::prelude::*;
use vstd::string::StringSliceAdditionalSpecFns;

use crate::bytes::{is_one_of, lower, path_extension};
use crate::mime::{extension_mime, name_mime};

verus! {

proof fn lemma_bytes_of_png()
    ensures
        "png".spec_bytes() == seq![0x70u8, 0x6Eu8, 0x67u8],
{
    broadcast use vstd::string::group_string_axioms;
    reveal_strlit("png");
    assert(vstd::string::is_ascii("png"));
    assert("png".spec_bytes() =~= seq![0x70u8, 0x6Eu8, 0x67u8]);
}

proof fn lemma_bytes_of_apng()
    ensures
        "apng".spec_bytes() == seq![0x61u8, 0x70u8, 0x6Eu8, 0x67u8],
{
    broadcast use vstd::string::group_string_axioms;
    reveal_strlit("apng");
    assert(vstd::string::is_ascii("apng"));
    assert("apng".spec_bytes() =~= seq![0x61u8, 0x70u8, 0x6Eu8, 0x67u8]);
}

proof fn lemma_bytes_of_jpg()
    ensures
        "jpg".spec_bytes() == seq![0x6Au8, 0x70u8, 0x67u8],
{
    broadcast use vstd::string::group_string_axioms;
    reveal_strlit("jpg");
    assert(vstd::string::is_ascii("jpg"));
    assert("jpg".spec_bytes() =~= seq![0x6Au8, 0x70u8, 0x67u8]);
}

proof fn lemma_bytes_of_jpeg()
    ensures
        "jpeg".spec_bytes() == seq![0x6Au8, 0x70u8, 0x65u8, 0x67u8],
{
    broadcast use vstd::string::group_string_axioms;
    reveal_strlit("jpeg");
    assert(vstd::string::is_ascii("jpeg"));
    assert("jpeg".spec_bytes() =~= seq![0x6Au8, 0x70u8, 0x65u8, 0x67u8]);
}

proof fn lemma_bytes_of_bmp()
    ensures
        "bmp".spec_bytes() == seq![0x62u8, 0x6Du8, 0x70u8],
{
    broadcast use vstd::string::group_string_axioms;
    reveal_strlit("bmp");
    assert(vstd::string::is_ascii("bmp"));
    assert("bmp".spec_bytes() =~= seq![0x62u8, 0x6Du8, 0x70u8]);
}

proof fn lemma_bytes_of_tif()
    ensures
        "tif".spec_bytes() == seq![0x74u8, 0x69u8, 0x66u8],
{
    broadcast use vstd::string::group_string_axioms;
    reveal_strlit("tif");
    assert(vstd::string::is_ascii("tif"));
    assert("tif".spec_bytes() =~= seq![0x74u8, 0x69u8, 0x66u8]);
}

proof fn lemma_bytes_of_tiff()
    ensures
        "tiff".spec_bytes() == seq![0x74u8, 0x69u8, 0x66u8, 0x66u8],
{
    broadcast use vstd::string::group_string_axioms;
    reveal_strlit("tiff");
    assert(vstd::string::is_ascii("tiff"));
    assert("tiff".spec_bytes() =~= seq![0x74u8, 0x69u8, 0x66u8, 0x66u8]);
}

proof fn lemma_bytes_of_webp()
    ensures
        "webp".spec_bytes() == seq![0x77u8, 0x65u8, 0x62u8, 0x70u8],
{
    broadcast use vstd::string::group_string_axioms;
    reveal_strlit("webp");
    assert(vstd::string::is_ascii("webp"));
    assert("webp".spec_bytes() =~= seq![0x77u8, 0x65u8, 0x62u8, 0x70u8]);
}

proof fn lemma_bytes_of_gif()
    ensures
        "gif".spec_bytes() == seq![0x67u8, 0x69u8, 0x66u8],
{
    broadcast use vstd::string::group_string_axioms;
    reveal_strlit("gif");
    assert(vstd::string::is_ascii("gif"));
    assert("gif".spec_bytes() =~= seq![0x67u8, 0x69u8, 0x66u8]);
}

proof fn lemma_bytes_of_mp4()
    ensures
        "mp4".spec_bytes() == seq![0x6Du8, 0x70u8, 0x34u8],
{
    broadcast use vstd::string::group_string_axioms;
    reveal_strlit("mp4");
    assert(vstd::string::is_ascii("mp4"));
    assert("mp4".spec_bytes() =~= seq![0x6Du8, 0x70u8, 0x34u8]);
}

proof fn lemma_bytes_of_m4a()
    ensures
        "m4a".spec_bytes() == seq![0x6Du8, 0x34u8, 0x61u8],
{
    broadcast use vstd::string::group_string_axioms;
    reveal_strlit("m4a");
    assert(vstd::string::is_ascii("m4a"));
    assert("m4a".spec_bytes() =~= seq![0x6Du8, 0x34u8, 0x61u8]);
}

proof fn lemma_bytes_of_mov()
    ensures
        "mov".spec_bytes() == seq![0x6Du8, 0x6Fu8, 0x76u8],
{
    broadcast use vstd::string::group_string_axioms;
    reveal_strlit("mov");
    assert(vstd::string::is_ascii("mov"));
    assert("mov".spec_bytes() =~= seq![0x6Du8, 0x6Fu8, 0x76u8]);
}

proof fn lemma_bytes_of_avi()
    ensures
        "avi".spec_bytes() == seq![0x61u8, 0x76u8, 0x69u8],
{
    broadcast use vstd::string::group_string_axioms;
    reveal_strlit("avi");
    assert(vstd::string::is_ascii("avi"));
    assert("avi".spec_bytes() =~= seq![0x61u8, 0x76u8, 0x69u8]);
}

proof fn lemma_bytes_of_mkv()
    ensures
        "mkv".spec_bytes() == seq![0x6Du8, 0x6Bu8, 0x76u8],
{
    broadcast use vstd::string::group_string_axioms;
    reveal_strlit("mkv");
    assert(vstd::string::is_ascii("mkv"));
    assert("mkv".spec_bytes() =~= seq![0x6Du8, 0x6Bu8, 0x76u8]);
}

proof fn lemma_bytes_of_webm()
    ensures
        "webm".spec_bytes() == seq![0x77u8, 0x65u8, 0x62u8, 0x6Du8],
{
    broadcast use vstd::string::group_string_axioms;
    reveal_strlit("webm");
    assert(vstd::string::is_ascii("webm"));
    assert("webm".spec_bytes() =~= seq![0x77u8, 0x65u8, 0x62u8, 0x6Du8]);
}

proof fn lemma_bytes_of_mp3()
    ensures
        "mp3".spec_bytes() == seq![0x6Du8, 0x70u8, 0x33u8],
{
    broadcast use vstd::string::group_string_axioms;
    reveal_strlit("mp3");
    assert(vstd::string::is_ascii("mp3"));
    assert("mp3".spec_bytes() =~= seq![0x6Du8, 0x70u8, 0x33u8]);
}

proof fn lemma_bytes_of_wav()
    ensures
        "wav".spec_bytes() == seq![0x77u8, 0x61u8, 0x76u8],
{
    broadcast use vstd::string::group_string_axioms;
    reveal_strlit("wav");
    assert(vstd::string::is_ascii("wav"));
    assert("wav".spec_bytes() =~= seq![0x77u8, 0x61u8, 0x76u8]);
}

proof fn lemma_bytes_of_flac()
    ensures
        "flac".spec_bytes() == seq![0x66u8, 0x6Cu8, 0x61u8, 0x63u8],
{
    broadcast use vstd::string::group_string_axioms;
    reveal_strlit("flac");
    assert(vstd::string::is_ascii("flac"));
    assert("flac".spec_bytes() =~= seq![0x66u8, 0x6Cu8, 0x61u8, 0x63u8]);
}

proof fn lemma_bytes_of_aac()
    ensures
        "aac".spec_bytes() == seq![0x61u8, 0x61u8, 0x63u8],
{
    broadcast use vstd::string::group_string_axioms;
    reveal_strlit("aac");
    assert(vstd::string::is_ascii("aac"));
    assert("aac".spec_bytes() =~= seq![0x61u8, 0x61u8, 0x63u8]);
}

proof fn lemma_bytes_of_ogg()
    ensures
        "ogg".spec_bytes() == seq![0x6Fu8, 0x67u8, 0x67u8],
{
    broadcast use vstd::string::group_string_axioms;
    reveal_strlit("ogg");
    assert(vstd::string::is_ascii("ogg"));
    assert("ogg".spec_bytes() =~= seq![0x6Fu8, 0x67u8, 0x67u8]);
}

proof fn lemma_bytes_of_oga()
    ensures
        "oga".spec_bytes() == seq![0x6Fu8, 0x67u8, 0x61u8],
{
    broadcast use vstd::string::group_string_axioms;
    reveal_strlit("oga");
    assert(vstd::string::is_ascii("oga"));
    assert("oga".spec_bytes() =~= seq![0x6Fu8, 0x67u8, 0x61u8]);
}

proof fn lemma_bytes_of_opus()
    ensures
        "opus".spec_bytes() == seq![0x6Fu8, 0x70u8, 0x75u8, 0x73u8],
{
    broadcast use vstd::string::group_string_axioms;
    reveal_strlit("opus");
    assert(vstd::string::is_ascii("opus"));
    assert("opus".spec_bytes() =~= seq![0x6Fu8, 0x70u8, 0x75u8, 0x73u8]);
}

proof fn lemma_bytes_of_amr()
    ensures
        "amr".spec_bytes() == seq![0x61u8, 0x6Du8, 0x72u8],
{
    broadcast use vstd::string::group_string_axioms;
    reveal_strlit("amr");
    assert(vstd::string::is_ascii("amr"));
    assert("amr".spec_bytes() =~= seq![0x61u8, 0x6Du8, 0x72u8]);
}

proof fn lemma_bytes_of_aif()
    ensures
        "aif".spec_bytes() == seq![0x61u8, 0x69u8, 0x66u8],
{
    broadcast use vstd::string::group_string_axioms;
    reveal_strlit("aif");
    assert(vstd::string::is_ascii("aif"));
    assert("aif".spec_bytes() =~= seq![0x61u8, 0x69u8, 0x66u8]);
}

proof fn lemma_bytes_of_aiff()
    ensures
        "aiff".spec_bytes() == seq![0x61u8, 0x69u8, 0x66u8, 0x66u8],
{
    broadcast use vstd::string::group_string_axioms;
    reveal_strlit("aiff");
    assert(vstd::string::is_ascii("aiff"));
    assert("aiff".spec_bytes() =~= seq![0x61u8, 0x69u8, 0x66u8, 0x66u8]);
}

proof fn lemma_bytes_of_pdf()
    ensures
        "pdf".spec_bytes() == seq![0x70u8, 0x64u8, 0x66u8],
{
    broadcast use vstd::string::group_string_axioms;
    reveal_strlit("pdf");
    assert(vstd::string::is_ascii("pdf"));
    assert("pdf".spec_bytes() =~= seq![0x70u8, 0x64u8, 0x66u8]);
}

proof fn lemma_bytes_of_zip()
    ensures
        "zip".spec_bytes() == seq![0x7Au8, 0x69u8, 0x70u8],
{
    broadcast use vstd::string::group_string_axioms;
    reveal_strlit("zip");
    assert(vstd::string::is_ascii("zip"));
    assert("zip".spec_bytes() =~= seq![0x7Au8, 0x69u8, 0x70u8]);
}

proof fn lemma_bytes_of_x7z()
    ensures
        "7z".spec_bytes() == seq![0x37u8, 0x7Au8],
{
    broadcast use vstd::string::group_string_axioms;
    reveal_strlit("7z");
    assert(vstd::string::is_ascii("7z"));
    assert("7z".spec_bytes() =~= seq![0x37u8, 0x7Au8]);
}

proof fn lemma_bytes_of_txt()
    ensures
        "txt".spec_bytes() == seq![0x74u8, 0x78u8, 0x74u8],
{
    broadcast use vstd::string::group_string_axioms;
    reveal_strlit("txt");
    assert(vstd::string::is_ascii("txt"));
    assert("txt".spec_bytes() =~= seq![0x74u8, 0x78u8, 0x74u8]);
}

proof fn lemma_bytes_of_csv()
    ensures
        "csv".spec_bytes() == seq![0x63u8, 0x73u8, 0x76u8],
{
    broadcast use vstd::string::group_string_axioms;
    reveal_strlit("csv");
    assert(vstd::string::is_ascii("csv"));
    assert("csv".spec_bytes() =~= seq![0x63u8, 0x73u8, 0x76u8]);
}

proof fn lemma_bytes_of_json()
    ensures
        "json".spec_bytes() == seq![0x6Au8, 0x73u8, 0x6Fu8, 0x6Eu8],
{
    broadcast use vstd::string::group_string_axioms;
    reveal_strlit("json");
    assert(vstd::string::is_ascii("json"));
    assert("json".spec_bytes() =~= seq![0x6Au8, 0x73u8, 0x6Fu8, 0x6Eu8]);
}

proof fn lemma_bytes_of_xml()
    ensures
        "xml".spec_bytes() == seq![0x78u8, 0x6Du8, 0x6Cu8],
{
    broadcast use vstd::string::group_string_axioms;
    reveal_strlit("xml");
    assert(vstd::string::is_ascii("xml"));
    assert("xml".spec_bytes() =~= seq![0x78u8, 0x6Du8, 0x6Cu8]);
}

proof fn lemma_extension_mime_png()
    ensures
        extension_mime(seq![0x70u8, 0x6Eu8, 0x67u8]) == Some("image/png"@),
{
    lemma_bytes_of_png();
    assert(seq!["png", "apng"][0].spec_bytes() == seq![0x70u8, 0x6Eu8, 0x67u8]);
}

proof fn lemma_extension_mime_apng()
    ensures
        extension_mime(seq![0x61u8, 0x70u8, 0x6Eu8, 0x67u8]) == Some("image/png"@),
{
    lemma_bytes_of_apng();
    assert(seq!["png", "apng"][1].spec_bytes() == seq![0x61u8, 0x70u8, 0x6Eu8, 0x67u8]);
}

proof fn lemma_extension_mime_jpg()
    ensures
        extension_mime(seq![0x6Au8, 0x70u8, 0x67u8]) == Some("image/jpeg"@),
{
    lemma_bytes_of_png();
    lemma_bytes_of_apng();
    lemma_bytes_of_jpg();
    assert(!is_one_of(seq![0x6Au8, 0x70u8, 0x67u8], seq!["png", "apng"])) by {
        let names: Seq<&str> = seq!["png", "apng"];
        assert forall|i: int| 0 <= i < names.len() implies names[i].spec_bytes() != seq![0x6Au8, 0x70u8, 0x67u8] by {
            if i == 0 { assert(seq![0x6Au8, 0x70u8, 0x67u8][0] != "png".spec_bytes()[0]); }
            if i == 1 { assert(seq![0x6Au8, 0x70u8, 0x67u8].len() != "apng".spec_bytes().len()); }
        }
    }
    assert(seq!["jpg", "jpeg"][0].spec_bytes() == seq![0x6Au8, 0x70u8, 0x67u8]);
}

proof fn lemma_extension_mime_jpeg()
    ensures
        extension_mime(seq![0x6Au8, 0x70u8, 0x65u8, 0x67u8]) == Some("image/jpeg"@),
{
    lemma_bytes_of_png();
    lemma_bytes_of_apng();
    lemma_bytes_of_jpeg();
    assert(!is_one_of(seq![0x6Au8, 0x70u8, 0x65u8, 0x67u8], seq!["png", "apng"])) by {
        let names: Seq<&str> = seq!["png", "apng"];
        assert forall|i: int| 0 <= i < names.len() implies names[i].spec_bytes() != seq![0x6Au8, 0x70u8, 0x65u8, 0x67u8] by {
            if i == 0 { assert(seq![0x6Au8, 0x70u8, 0x65u8, 0x67u8].len() != "png".spec_bytes().len()); }
            if i == 1 { assert(seq![0x6Au8, 0x70u8, 0x65u8, 0x67u8][0] != "apng".spec_bytes()[0]); }
        }
    }
    assert(seq!["jpg", "jpeg"][1].spec_bytes() == seq![0x6Au8, 0x70u8, 0x65u8, 0x67u8]);
}

proof fn lemma_extension_mime_bmp()
    ensures
        extension_mime(seq![0x62u8, 0x6Du8, 0x70u8]) == Some("image/bmp"@),
{
    lemma_bytes_of_png();
    lemma_bytes_of_apng();
    lemma_bytes_of_jpg();
    lemma_bytes_of_jpeg();
    lemma_bytes_of_bmp();
    assert(!is_one_of(seq![0x62u8, 0x6Du8, 0x70u8], seq!["png", "apng"])) by {
        let names: Seq<&str> = seq!["png", "apng"];
        assert forall|i: int| 0 <= i < names.len() implies names[i].spec_bytes() != seq![0x62u8, 0x6Du8, 0x70u8] by {
            if i == 0 { assert(seq![0x62u8, 0x6Du8, 0x70u8][0] != "png".spec_bytes()[0]); }
            if i == 1 { assert(seq![0x62u8, 0x6Du8, 0x70u8].len() != "apng".spec_bytes().len()); }
        }
    }
    assert(!is_one_of(seq![0x62u8, 0x6Du8, 0x70u8], seq!["jpg", "jpeg"])) by {
        let names: Seq<&str> = seq!["jpg", "jpeg"];
        assert forall|i: int| 0 <= i < names.len() implies names[i].spec_bytes() != seq![0x62u8, 0x6Du8, 0x70u8] by {
            if i == 0 { assert(seq![0x62u8, 0x6Du8, 0x70u8][0] != "jpg".spec_bytes()[0]); }
            if i == 1 { assert(seq![0x62u8, 0x6Du8, 0x70u8].len() != "jpeg".spec_bytes().len()); }
        }
    }
}

proof fn lemma_extension_mime_tif()
    ensures
        extension_mime(seq![0x74u8, 0x69u8, 0x66u8]) == Some("image/tiff"@),
{
    lemma_bytes_of_png();
    lemma_bytes_of_apng();
    lemma_bytes_of_jpg();
    lemma_bytes_of_jpeg();
    lemma_bytes_of_bmp();
    lemma_bytes_of_tif();
    assert(!is_one_of(seq![0x74u8, 0x69u8, 0x66u8], seq!["png", "apng"])) by {
        let names: Seq<&str> = seq!["png", "apng"];
        assert forall|i: int| 0 <= i < names.len() implies names[i].spec_bytes() != seq![0x74u8, 0x69u8, 0x66u8] by {
            if i == 0 { assert(seq![0x74u8, 0x69u8, 0x66u8][0] != "png".spec_bytes()[0]); }
            if i == 1 { assert(seq![0x74u8, 0x69u8, 0x66u8].len() != "apng".spec_bytes().len()); }
        }
    }
    assert(!is_one_of(seq![0x74u8, 0x69u8, 0x66u8], seq!["jpg", "jpeg"])) by {
        let names: Seq<&str> = seq!["jpg", "jpeg"];
        assert forall|i: int| 0 <= i < names.len() implies names[i].spec_bytes() != seq![0x74u8, 0x69u8, 0x66u8] by {
            if i == 0 { assert(seq![0x74u8, 0x69u8, 0x66u8][0] != "jpg".spec_bytes()[0]); }
            if i == 1 { assert(seq![0x74u8, 0x69u8, 0x66u8].len() != "jpeg".spec_bytes().len()); }
        }
    }
    assert(seq![0x74u8, 0x69u8, 0x66u8][0] != "bmp".spec_bytes()[0]);
    assert(seq!["tif", "tiff"][0].spec_bytes() == seq![0x74u8, 0x69u8, 0x66u8]);
}

proof fn lemma_extension_mime_tiff()
    ensures
        extension_mime(seq![0x74u8, 0x69u8, 0x66u8, 0x66u8]) == Some("image/tiff"@),
{
    lemma_bytes_of_png();
    lemma_bytes_of_apng();
    lemma_bytes_of_jpg();
    lemma_bytes_of_jpeg();
    lemma_bytes_of_bmp();
    lemma_bytes_of_tiff();
    assert(!is_one_of(seq![0x74u8, 0x69u8, 0x66u8, 0x66u8], seq!["png", "apng"])) by {
        let names: Seq<&str> = seq!["png", "apng"];
        assert forall|i: int| 0 <= i < names.len() implies names[i].spec_bytes() != seq![0x74u8, 0x69u8, 0x66u8, 0x66u8] by {
            if i == 0 { assert(seq![0x74u8, 0x69u8, 0x66u8, 0x66u8].len() != "png".spec_bytes().len()); }
            if i == 1 { assert(seq![0x74u8, 0x69u8, 0x66u8, 0x66u8][0] != "apng".spec_bytes()[0]); }
        }
    }
    assert(!is_one_of(seq![0x74u8, 0x69u8, 0x66u8, 0x66u8], seq!["jpg", "jpeg"])) by {
        let names: Seq<&str> = seq!["jpg", "jpeg"];
        assert forall|i: int| 0 <= i < names.len() implies names[i].spec_bytes() != seq![0x74u8, 0x69u8, 0x66u8, 0x66u8] by {
            if i == 0 { assert(seq![0x74u8, 0x69u8, 0x66u8, 0x66u8].len() != "jpg".spec_bytes().len()); }
            if i == 1 { assert(seq![0x74u8, 0x69u8, 0x66u8, 0x66u8][0] != "jpeg".spec_bytes()[0]); }
        }
    }
    assert(seq![0x74u8, 0x69u8, 0x66u8, 0x66u8].len() != "bmp".spec_bytes().len());
    assert(seq!["tif", "tiff"][1].spec_bytes() == seq![0x74u8, 0x69u8, 0x66u8, 0x66u8]);
}

proof fn lemma_extension_mime_webp()
    ensures
        extension_mime(seq![0x77u8, 0x65u8, 0x62u8, 0x70u8]) == Some("image/webp"@),
{
    lemma_bytes_of_png();
    lemma_bytes_of_apng();
    lemma_bytes_of_jpg();
    lemma_bytes_of_jpeg();
    lemma_bytes_of_bmp();
    lemma_bytes_of_tif();
    lemma_bytes_of_tiff();
    lemma_bytes_of_webp();
    assert(!is_one_of(seq![0x77u8, 0x65u8, 0x62u8, 0x70u8], seq!["png", "apng"])) by {
        let names: Seq<&str> = seq!["png", "apng"];
        assert forall|i: int| 0 <= i < names.len() implies names[i].spec_bytes() != seq![0x77u8, 0x65u8, 0x62u8, 0x70u8] by {
            if i == 0 { assert(seq![0x77u8, 0x65u8, 0x62u8, 0x70u8].len() != "png".spec_bytes().len()); }
            if i == 1 { assert(seq![0x77u8, 0x65u8, 0x62u8, 0x70u8][0] != "apng".spec_bytes()[0]); }
        }
    }
    assert(!is_one_of(seq![0x77u8, 0x65u8, 0x62u8, 0x70u8], seq!["jpg", "jpeg"])) by {
        let names: Seq<&str> = seq!["jpg", "jpeg"];
        assert forall|i: int| 0 <= i < names.len() implies names[i].spec_bytes() != seq![0x77u8, 0x65u8, 0x62u8, 0x70u8] by {
            if i == 0 { assert(seq![0x77u8, 0x65u8, 0x62u8, 0x70u8].len() != "jpg".spec_bytes().len()); }
            if i == 1 { assert(seq![0x77u8, 0x65u8, 0x62u8, 0x70u8][0] != "jpeg".spec_bytes()[0]); }
        }
    }
    assert(seq![0x77u8, 0x65u8, 0x62u8, 0x70u8].len() != "bmp".spec_bytes().len());
    assert(!is_one_of(seq![0x77u8, 0x65u8, 0x62u8, 0x70u8], seq!["tif", "tiff"])) by {
        let names: Seq<&str> = seq!["tif", "tiff"];
        assert forall|i: int| 0 <= i < names.len() implies names[i].spec_bytes() != seq![0x77u8, 0x65u8, 0x62u8, 0x70u8] by {
            if i == 0 { assert(seq![0x77u8, 0x65u8, 0x62u8, 0x70u8].len() != "tif".spec_bytes().len()); }
            if i == 1 { assert(seq![0x77u8, 0x65u8, 0x62u8, 0x70u8][0] != "tiff".spec_bytes()[0]); }
        }
    }
}

proof fn lemma_extension_mime_gif()
    ensures
        extension_mime(seq![0x67u8, 0x69u8, 0x66u8]) == Some("image/gif"@),
{
    lemma_bytes_of_png();
    lemma_bytes_of_apng();
    lemma_bytes_of_jpg();
    lemma_bytes_of_jpeg();
    lemma_bytes_of_bmp();
    lemma_bytes_of_tif();
    lemma_bytes_of_tiff();
    lemma_bytes_of_webp();
    lemma_bytes_of_gif();
    assert(!is_one_of(seq![0x67u8, 0x69u8, 0x66u8], seq!["png", "apng"])) by {
        let names: Seq<&str> = seq!["png", "apng"];
        assert forall|i: int| 0 <= i < names.len() implies names[i].spec_bytes() != seq![0x67u8, 0x69u8, 0x66u8] by {
            if i == 0 { assert(seq![0x67u8, 0x69u8, 0x66u8][0] != "png".spec_bytes()[0]); }
            if i == 1 { assert(seq![0x67u8, 0x69u8, 0x66u8].len() != "apng".spec_bytes().len()); }
        }
    }
    assert(!is_one_of(seq![0x67u8, 0x69u8, 0x66u8], seq!["jpg", "jpeg"])) by {
        let names: Seq<&str> = seq!["jpg", "jpeg"];
        assert forall|i: int| 0 <= i < names.len() implies names[i].spec_bytes() != seq![0x67u8, 0x69u8, 0x66u8] by {
            if i == 0 { assert(seq![0x67u8, 0x69u8, 0x66u8][0] != "jpg".spec_bytes()[0]); }
            if i == 1 { assert(seq![0x67u8, 0x69u8, 0x66u8].len() != "jpeg".spec_bytes().len()); }
        }
    }
    assert(seq![0x67u8, 0x69u8, 0x66u8][0] != "bmp".spec_bytes()[0]);
    assert(!is_one_of(seq![0x67u8, 0x69u8, 0x66u8], seq!["tif", "tiff"])) by {
        let names: Seq<&str> = seq!["tif", "tiff"];
        assert forall|i: int| 0 <= i < names.len() implies names[i].spec_bytes() != seq![0x67u8, 0x69u8, 0x66u8] by {
            if i == 0 { assert(seq![0x67u8, 0x69u8, 0x66u8][0] != "tif".spec_bytes()[0]); }
            if i == 1 { assert(seq![0x67u8, 0x69u8, 0x66u8].len() != "tiff".spec_bytes().len()); }
        }
    }
    assert(seq![0x67u8, 0x69u8, 0x66u8].len() != "webp".spec_bytes().len());
}

proof fn lemma_extension_mime_mp4()
    ensures
        extension_mime(seq![0x6Du8, 0x70u8, 0x34u8]) == Some("application/mp4"@),
{
    lemma_bytes_of_png();
    lemma_bytes_of_apng();
    lemma_bytes_of_jpg();
    lemma_bytes_of_jpeg();
    lemma_bytes_of_bmp();
    lemma_bytes_of_tif();
    lemma_bytes_of_tiff();
    lemma_bytes_of_webp();
    lemma_bytes_of_gif();
    lemma_bytes_of_mp4();
    assert(!is_one_of(seq![0x6Du8, 0x70u8, 0x34u8], seq!["png", "apng"])) by {
        let names: Seq<&str> = seq!["png", "apng"];
        assert forall|i: int| 0 <= i < names.len() implies names[i].spec_bytes() != seq![0x6Du8, 0x70u8, 0x34u8] by {
            if i == 0 { assert(seq![0x6Du8, 0x70u8, 0x34u8][0] != "png".spec_bytes()[0]); }
            if i == 1 { assert(seq![0x6Du8, 0x70u8, 0x34u8].len() != "apng".spec_bytes().len()); }
        }
    }
    assert(!is_one_of(seq![0x6Du8, 0x70u8, 0x34u8], seq!["jpg", "jpeg"])) by {
        let names: Seq<&str> = seq!["jpg", "jpeg"];
        assert forall|i: int| 0 <= i < names.len() implies names[i].spec_bytes() != seq![0x6Du8, 0x70u8, 0x34u8] by {
            if i == 0 { assert(seq![0x6Du8, 0x70u8, 0x34u8][0] != "jpg".spec_bytes()[0]); }
            if i == 1 { assert(seq![0x6Du8, 0x70u8, 0x34u8].len() != "jpeg".spec_bytes().len()); }
        }
    }
    assert(seq![0x6Du8, 0x70u8, 0x34u8][0] != "bmp".spec_bytes()[0]);
    assert(!is_one_of(seq![0x6Du8, 0x70u8, 0x34u8], seq!["tif", "tiff"])) by {
        let names: Seq<&str> = seq!["tif", "tiff"];
        assert forall|i: int| 0 <= i < names.len() implies names[i].spec_bytes() != seq![0x6Du8, 0x70u8, 0x34u8] by {
            if i == 0 { assert(seq![0x6Du8, 0x70u8, 0x34u8][0] != "tif".spec_bytes()[0]); }
            if i == 1 { assert(seq![0x6Du8, 0x70u8, 0x34u8].len() != "tiff".spec_bytes().len()); }
        }
    }
    assert(seq![0x6Du8, 0x70u8, 0x34u8].len() != "webp".spec_bytes().len());
    assert(seq![0x6Du8, 0x70u8, 0x34u8][0] != "gif".spec_bytes()[0]);
    assert(seq!["mp4", "m4a"][0].spec_bytes() == seq![0x6Du8, 0x70u8, 0x34u8]);
}

proof fn lemma_extension_mime_m4a()
    ensures
        extension_mime(seq![0x6Du8, 0x34u8, 0x61u8]) == Some("application/mp4"@),
{
    lemma_bytes_of_png();
    lemma_bytes_of_apng();
    lemma_bytes_of_jpg();
    lemma_bytes_of_jpeg();
    lemma_bytes_of_bmp();
    lemma_bytes_of_tif();
    lemma_bytes_of_tiff();
    lemma_bytes_of_webp();
    lemma_bytes_of_gif();
    lemma_bytes_of_m4a();
    assert(!is_one_of(seq![0x6Du8, 0x34u8, 0x61u8], seq!["png", "apng"])) by {
        let names: Seq<&str> = seq!["png", "apng"];
        assert forall|i: int| 0 <= i < names.len() implies names[i].spec_bytes() != seq![0x6Du8, 0x34u8, 0x61u8] by {
            if i == 0 { assert(seq![0x6Du8, 0x34u8, 0x61u8][0] != "png".spec_bytes()[0]); }
            if i == 1 { assert(seq![0x6Du8, 0x34u8, 0x61u8].len() != "apng".spec_bytes().len()); }
        }
    }
    assert(!is_one_of(seq![0x6Du8, 0x34u8, 0x61u8], seq!["jpg", "jpeg"])) by {
        let names: Seq<&str> = seq!["jpg", "jpeg"];
        assert forall|i: int| 0 <= i < names.len() implies names[i].spec_bytes() != seq![0x6Du8, 0x34u8, 0x61u8] by {
            if i == 0 { assert(seq![0x6Du8, 0x34u8, 0x61u8][0] != "jpg".spec_bytes()[0]); }
            if i == 1 { assert(seq![0x6Du8, 0x34u8, 0x61u8].len() != "jpeg".spec_bytes().len()); }
        }
    }
    assert(seq![0x6Du8, 0x34u8, 0x61u8][0] != "bmp".spec_bytes()[0]);
    assert(!is_one_of(seq![0x6Du8, 0x34u8, 0x61u8], seq!["tif", "tiff"])) by {
        let names: Seq<&str> = seq!["tif", "tiff"];
        assert forall|i: int| 0 <= i < names.len() implies names[i].spec_bytes() != seq![0x6Du8, 0x34u8, 0x61u8] by {
            if i == 0 { assert(seq![0x6Du8, 0x34u8, 0x61u8][0] != "tif".spec_bytes()[0]); }
            if i == 1 { assert(seq![0x6Du8, 0x34u8, 0x61u8].len() != "tiff".spec_bytes().len()); }
        }
    }
    assert(seq![0x6Du8, 0x34u8, 0x61u8].len() != "webp".spec_bytes().len());
    assert(seq![0x6Du8, 0x34u8, 0x61u8][0] != "gif".spec_bytes()[0]);
    assert(seq!["mp4", "m4a"][1].spec_bytes() == seq![0x6Du8, 0x34u8, 0x61u8]);
}

proof fn lemma_extension_mime_mov()
    ensures
        extension_mime(seq![0x6Du8, 0x6Fu8, 0x76u8]) == Some("video/quicktime"@),
{
    lemma_bytes_of_png();
    lemma_bytes_of_apng();
    lemma_bytes_of_jpg();
    lemma_bytes_of_jpeg();
    lemma_bytes_of_bmp();
    lemma_bytes_of_tif();
    lemma_bytes_of_tiff();
    lemma_bytes_of_webp();
    lemma_bytes_of_gif();
    lemma_bytes_of_mp4();
    lemma_bytes_of_m4a();
    lemma_bytes_of_mov();
    assert(!is_one_of(seq![0x6Du8, 0x6Fu8, 0x76u8], seq!["png", "apng"])) by {
        let names: Seq<&str> = seq!["png", "apng"];
        assert forall|i: int| 0 <= i < names.len() implies names[i].spec_bytes() != seq![0x6Du8, 0x6Fu8, 0x76u8] by {
            if i == 0 { assert(seq![0x6Du8, 0x6Fu8, 0x76u8][0] != "png".spec_bytes()[0]); }
            if i == 1 { assert(seq![0x6Du8, 0x6Fu8, 0x76u8].len() != "apng".spec_bytes().len()); }
        }
    }
    assert(!is_one_of(seq![0x6Du8, 0x6Fu8, 0x76u8], seq!["jpg", "jpeg"])) by {
        let names: Seq<&str> = seq!["jpg", "jpeg"];
        assert forall|i: int| 0 <= i < names.len() implies names[i].spec_bytes() != seq![0x6Du8, 0x6Fu8, 0x76u8] by {
            if i == 0 { assert(seq![0x6Du8, 0x6Fu8, 0x76u8][0] != "jpg".spec_bytes()[0]); }
            if i == 1 { assert(seq![0x6Du8, 0x6Fu8, 0x76u8].len() != "jpeg".spec_bytes().len()); }
        }
    }
    assert(seq![0x6Du8, 0x6Fu8, 0x76u8][0] != "bmp".spec_bytes()[0]);
    assert(!is_one_of(seq![0x6Du8, 0x6Fu8, 0x76u8], seq!["tif", "tiff"])) by {
        let names: Seq<&str> = seq!["tif", "tiff"];
        assert forall|i: int| 0 <= i < names.len() implies names[i].spec_bytes() != seq![0x6Du8, 0x6Fu8, 0x76u8] by {
            if i == 0 { assert(seq![0x6Du8, 0x6Fu8, 0x76u8][0] != "tif".spec_bytes()[0]); }
            if i == 1 { assert(seq![0x6Du8, 0x6Fu8, 0x76u8].len() != "tiff".spec_bytes().len()); }
        }
    }
    assert(seq![0x6Du8, 0x6Fu8, 0x76u8].len() != "webp".spec_bytes().len());
    assert(seq![0x6Du8, 0x6Fu8, 0x76u8][0] != "gif".spec_bytes()[0]);
    assert(!is_one_of(seq![0x6Du8, 0x6Fu8, 0x76u8], seq!["mp4", "m4a"])) by {
        let names: Seq<&str> = seq!["mp4", "m4a"];
        assert forall|i: int| 0 <= i < names.len() implies names[i].spec_bytes() != seq![0x6Du8, 0x6Fu8, 0x76u8] by {
            if i == 0 { assert(seq![0x6Du8, 0x6Fu8, 0x76u8][1] != "mp4".spec_bytes()[1]); }
            if i == 1 { assert(seq![0x6Du8, 0x6Fu8, 0x76u8][1] != "m4a".spec_bytes()[1]); }
        }
    }
}

proof fn lemma_extension_mime_avi()
    ensures
        extension_mime(seq![0x61u8, 0x76u8, 0x69u8]) == Some("video/x-msvideo"@),
{
    lemma_bytes_of_png();
    lemma_bytes_of_apng();
    lemma_bytes_of_jpg();
    lemma_bytes_of_jpeg();
    lemma_bytes_of_bmp();
    lemma_bytes_of_tif();
    lemma_bytes_of_tiff();
    lemma_bytes_of_webp();
    lemma_bytes_of_gif();
    lemma_bytes_of_mp4();
    lemma_bytes_of_m4a();
    lemma_bytes_of_mov();
    lemma_bytes_of_avi();
    assert(!is_one_of(seq![0x61u8, 0x76u8, 0x69u8], seq!["png", "apng"])) by {
        let names: Seq<&str> = seq!["png", "apng"];
        assert forall|i: int| 0 <= i < names.len() implies names[i].spec_bytes() != seq![0x61u8, 0x76u8, 0x69u8] by {
            if i == 0 { assert(seq![0x61u8, 0x76u8, 0x69u8][0] != "png".spec_bytes()[0]); }
            if i == 1 { assert(seq![0x61u8, 0x76u8, 0x69u8].len() != "apng".spec_bytes().len()); }
        }
    }
    assert(!is_one_of(seq![0x61u8, 0x76u8, 0x69u8], seq!["jpg", "jpeg"])) by {
        let names: Seq<&str> = seq!["jpg", "jpeg"];
        assert forall|i: int| 0 <= i < names.len() implies names[i].spec_bytes() != seq![0x61u8, 0x76u8, 0x69u8] by {
            if i == 0 { assert(seq![0x61u8, 0x76u8, 0x69u8][0] != "jpg".spec_bytes()[0]); }
            if i == 1 { assert(seq![0x61u8, 0x76u8, 0x69u8].len() != "jpeg".spec_bytes().len()); }
        }
    }
    assert(seq![0x61u8, 0x76u8, 0x69u8][0] != "bmp".spec_bytes()[0]);
    assert(!is_one_of(seq![0x61u8, 0x76u8, 0x69u8], seq!["tif", "tiff"])) by {
        let names: Seq<&str> = seq!["tif", "tiff"];
        assert forall|i: int| 0 <= i < names.len() implies names[i].spec_bytes() != seq![0x61u8, 0x76u8, 0x69u8] by {
            if i == 0 { assert(seq![0x61u8, 0x76u8, 0x69u8][0] != "tif".spec_bytes()[0]); }
            if i == 1 { assert(seq![0x61u8, 0x76u8, 0x69u8].len() != "tiff".spec_bytes().len()); }
        }
    }
    assert(seq![0x61u8, 0x76u8, 0x69u8].len() != "webp".spec_bytes().len());
    assert(seq![0x61u8, 0x76u8, 0x69u8][0] != "gif".spec_bytes()[0]);
    assert(!is_one_of(seq![0x61u8, 0x76u8, 0x69u8], seq!["mp4", "m4a"])) by {
        let names: Seq<&str> = seq!["mp4", "m4a"];
        assert forall|i: int| 0 <= i < names.len() implies names[i].spec_bytes() != seq![0x61u8, 0x76u8, 0x69u8] by {
            if i == 0 { assert(seq![0x61u8, 0x76u8, 0x69u8][0] != "mp4".spec_bytes()[0]); }
            if i == 1 { assert(seq![0x61u8, 0x76u8, 0x69u8][0] != "m4a".spec_bytes()[0]); }
        }
    }
    assert(seq![0x61u8, 0x76u8, 0x69u8][0] != "mov".spec_bytes()[0]);
}

proof fn lemma_extension_mime_mkv()
    ensures
        extension_mime(seq![0x6Du8, 0x6Bu8, 0x76u8]) == Some("video/matroska"@),
{
    lemma_bytes_of_png();
    lemma_bytes_of_apng();
    lemma_bytes_of_jpg();
    lemma_bytes_of_jpeg();
    lemma_bytes_of_bmp();
    lemma_bytes_of_tif();
    lemma_bytes_of_tiff();
    lemma_bytes_of_webp();
    lemma_bytes_of_gif();
    lemma_bytes_of_mp4();
    lemma_bytes_of_m4a();
    lemma_bytes_of_mov();
    lemma_bytes_of_avi();
    lemma_bytes_of_mkv();
    assert(!is_one_of(seq![0x6Du8, 0x6Bu8, 0x76u8], seq!["png", "apng"])) by {
        let names: Seq<&str> = seq!["png", "apng"];
        assert forall|i: int| 0 <= i < names.len() implies names[i].spec_bytes() != seq![0x6Du8, 0x6Bu8, 0x76u8] by {
            if i == 0 { assert(seq![0x6Du8, 0x6Bu8, 0x76u8][0] != "png".spec_bytes()[0]); }
            if i == 1 { assert(seq![0x6Du8, 0x6Bu8, 0x76u8].len() != "apng".spec_bytes().len()); }
        }
    }
    assert(!is_one_of(seq![0x6Du8, 0x6Bu8, 0x76u8], seq!["jpg", "jpeg"])) by {
        let names: Seq<&str> = seq!["jpg", "jpeg"];
        assert forall|i: int| 0 <= i < names.len() implies names[i].spec_bytes() != seq![0x6Du8, 0x6Bu8, 0x76u8] by {
            if i == 0 { assert(seq![0x6Du8, 0x6Bu8, 0x76u8][0] != "jpg".spec_bytes()[0]); }
            if i == 1 { assert(seq![0x6Du8, 0x6Bu8, 0x76u8].len() != "jpeg".spec_bytes().len()); }
        }
    }
    assert(seq![0x6Du8, 0x6Bu8, 0x76u8][0] != "bmp".spec_bytes()[0]);
    assert(!is_one_of(seq![0x6Du8, 0x6Bu8, 0x76u8], seq!["tif", "tiff"])) by {
        let names: Seq<&str> = seq!["tif", "tiff"];
        assert forall|i: int| 0 <= i < names.len() implies names[i].spec_bytes() != seq![0x6Du8, 0x6Bu8, 0x76u8] by {
            if i == 0 { assert(seq![0x6Du8, 0x6Bu8, 0x76u8][0] != "tif".spec_bytes()[0]); }
            if i == 1 { assert(seq![0x6Du8, 0x6Bu8, 0x76u8].len() != "tiff".spec_bytes().len()); }
        }
    }
    assert(seq![0x6Du8, 0x6Bu8, 0x76u8].len() != "webp".spec_bytes().len());
    assert(seq![0x6Du8, 0x6Bu8, 0x76u8][0] != "gif".spec_bytes()[0]);
    assert(!is_one_of(seq![0x6Du8, 0x6Bu8, 0x76u8], seq!["mp4", "m4a"])) by {
        let names: Seq<&str> = seq!["mp4", "m4a"];
        assert forall|i: int| 0 <= i < names.len() implies names[i].spec_bytes() != seq![0x6Du8, 0x6Bu8, 0x76u8] by {
            if i == 0 { assert(seq![0x6Du8, 0x6Bu8, 0x76u8][1] != "mp4".spec_bytes()[1]); }
            if i == 1 { assert(seq![0x6Du8, 0x6Bu8, 0x76u8][1] != "m4a".spec_bytes()[1]); }
        }
    }
    assert(seq![0x6Du8, 0x6Bu8, 0x76u8][1] != "mov".spec_bytes()[1]);
    assert(seq![0x6Du8, 0x6Bu8, 0x76u8][0] != "avi".spec_bytes()[0]);
}

proof fn lemma_extension_mime_webm()
    ensures
        extension_mime(seq![0x77u8, 0x65u8, 0x62u8, 0x6Du8]) == Some("video/webm"@),
{
    lemma_bytes_of_png();
    lemma_bytes_of_apng();
    lemma_bytes_of_jpg();
    lemma_bytes_of_jpeg();
    lemma_bytes_of_bmp();
    lemma_bytes_of_tif();
    lemma_bytes_of_tiff();
    lemma_bytes_of_webp();
    lemma_bytes_of_gif();
    lemma_bytes_of_mp4();
    lemma_bytes_of_m4a();
    lemma_bytes_of_mov();
    lemma_bytes_of_avi();
    lemma_bytes_of_mkv();
    lemma_bytes_of_webm();
    assert(!is_one_of(seq![0x77u8, 0x65u8, 0x62u8, 0x6Du8], seq!["png", "apng"])) by {
        let names: Seq<&str> = seq!["png", "apng"];
        assert forall|i: int| 0 <= i < names.len() implies names[i].spec_bytes() != seq![0x77u8, 0x65u8, 0x62u8, 0x6Du8] by {
            if i == 0 { assert(seq![0x77u8, 0x65u8, 0x62u8, 0x6Du8].len() != "png".spec_bytes().len()); }
            if i == 1 { assert(seq![0x77u8, 0x65u8, 0x62u8, 0x6Du8][0] != "apng".spec_bytes()[0]); }
        }
    }
    assert(!is_one_of(seq![0x77u8, 0x65u8, 0x62u8, 0x6Du8], seq!["jpg", "jpeg"])) by {
        let names: Seq<&str> = seq!["jpg", "jpeg"];
        assert forall|i: int| 0 <= i < names.len() implies names[i].spec_bytes() != seq![0x77u8, 0x65u8, 0x62u8, 0x6Du8] by {
            if i == 0 { assert(seq![0x77u8, 0x65u8, 0x62u8, 0x6Du8].len() != "jpg".spec_bytes().len()); }
            if i == 1 { assert(seq![0x77u8, 0x65u8, 0x62u8, 0x6Du8][0] != "jpeg".spec_bytes()[0]); }
        }
    }
    assert(seq![0x77u8, 0x65u8, 0x62u8, 0x6Du8].len() != "bmp".spec_bytes().len());
    assert(!is_one_of(seq![0x77u8, 0x65u8, 0x62u8, 0x6Du8], seq!["tif", "tiff"])) by {
        let names: Seq<&str> = seq!["tif", "tiff"];
        assert forall|i: int| 0 <= i < names.len() implies names[i].spec_bytes() != seq![0x77u8, 0x65u8, 0x62u8, 0x6Du8] by {
            if i == 0 { assert(seq![0x77u8, 0x65u8, 0x62u8, 0x6Du8].len() != "tif".spec_bytes().len()); }
            if i == 1 { assert(seq![0x77u8, 0x65u8, 0x62u8, 0x6Du8][0] != "tiff".spec_bytes()[0]); }
        }
    }
    assert(seq![0x77u8, 0x65u8, 0x62u8, 0x6Du8][3] != "webp".spec_bytes()[3]);
    assert(seq![0x77u8, 0x65u8, 0x62u8, 0x6Du8].len() != "gif".spec_bytes().len());
    assert(!is_one_of(seq![0x77u8, 0x65u8, 0x62u8, 0x6Du8], seq!["mp4", "m4a"])) by {
        let names: Seq<&str> = seq!["mp4", "m4a"];
        assert forall|i: int| 0 <= i < names.len() implies names[i].spec_bytes() != seq![0x77u8, 0x65u8, 0x62u8, 0x6Du8] by {
            if i == 0 { assert(seq![0x77u8, 0x65u8, 0x62u8, 0x6Du8].len() != "mp4".spec_bytes().len()); }
            if i == 1 { assert(seq![0x77u8, 0x65u8, 0x62u8, 0x6Du8].len() != "m4a".spec_bytes().len()); }
        }
    }
    assert(seq![0x77u8, 0x65u8, 0x62u8, 0x6Du8].len() != "mov".spec_bytes().len());
    assert(seq![0x77u8, 0x65u8, 0x62u8, 0x6Du8].len() != "avi".spec_bytes().len());
    assert(seq![0x77u8, 0x65u8, 0x62u8, 0x6Du8].len() != "mkv".spec_bytes().len());
}

proof fn lemma_extension_mime_mp3()
    ensures
        extension_mime(seq![0x6Du8, 0x70u8, 0x33u8]) == Some("audio/mpeg"@),
{
    lemma_bytes_of_png();
    lemma_bytes_of_apng();
    lemma_bytes_of_jpg();
    lemma_bytes_of_jpeg();
    lemma_bytes_of_bmp();
    lemma_bytes_of_tif();
    lemma_bytes_of_tiff();
    lemma_bytes_of_webp();
    lemma_bytes_of_gif();
    lemma_bytes_of_mp4();
    lemma_bytes_of_m4a();
    lemma_bytes_of_mov();
    lemma_bytes_of_avi();
    lemma_bytes_of_mkv();
    lemma_bytes_of_webm();
    lemma_bytes_of_mp3();
    assert(!is_one_of(seq![0x6Du8, 0x70u8, 0x33u8], seq!["png", "apng"])) by {
        let names: Seq<&str> = seq!["png", "apng"];
        assert forall|i: int| 0 <= i < names.len() implies names[i].spec_bytes() != seq![0x6Du8, 0x70u8, 0x33u8] by {
            if i == 0 { assert(seq![0x6Du8, 0x70u8, 0x33u8][0] != "png".spec_bytes()[0]); }
            if i == 1 { assert(seq![0x6Du8, 0x70u8, 0x33u8].len() != "apng".spec_bytes().len()); }
        }
    }
    assert(!is_one_of(seq![0x6Du8, 0x70u8, 0x33u8], seq!["jpg", "jpeg"])) by {
        let names: Seq<&str> = seq!["jpg", "jpeg"];
        assert forall|i: int| 0 <= i < names.len() implies names[i].spec_bytes() != seq![0x6Du8, 0x70u8, 0x33u8] by {
            if i == 0 { assert(seq![0x6Du8, 0x70u8, 0x33u8][0] != "jpg".spec_bytes()[0]); }
            if i == 1 { assert(seq![0x6Du8, 0x70u8, 0x33u8].len() != "jpeg".spec_bytes().len()); }
        }
    }
    assert(seq![0x6Du8, 0x70u8, 0x33u8][0] != "bmp".spec_bytes()[0]);
    assert(!is_one_of(seq![0x6Du8, 0x70u8, 0x33u8], seq!["tif", "tiff"])) by {
        let names: Seq<&str> = seq!["tif", "tiff"];
        assert forall|i: int| 0 <= i < names.len() implies names[i].spec_bytes() != seq![0x6Du8, 0x70u8, 0x33u8] by {
            if i == 0 { assert(seq![0x6Du8, 0x70u8, 0x33u8][0] != "tif".spec_bytes()[0]); }
            if i == 1 { assert(seq![0x6Du8, 0x70u8, 0x33u8].len() != "tiff".spec_bytes().len()); }
        }
    }
    assert(seq![0x6Du8, 0x70u8, 0x33u8].len() != "webp".spec_bytes().len());
    assert(seq![0x6Du8, 0x70u8, 0x33u8][0] != "gif".spec_bytes()[0]);
    assert(!is_one_of(seq![0x6Du8, 0x70u8, 0x33u8], seq!["mp4", "m4a"])) by {
        let names: Seq<&str> = seq!["mp4", "m4a"];
        assert forall|i: int| 0 <= i < names.len() implies names[i].spec_bytes() != seq![0x6Du8, 0x70u8, 0x33u8] by {
            if i == 0 { assert(seq![0x6Du8, 0x70u8, 0x33u8][2] != "mp4".spec_bytes()[2]); }
            if i == 1 { assert(seq![0x6Du8, 0x70u8, 0x33u8][1] != "m4a".spec_bytes()[1]); }
        }
    }
    assert(seq![0x6Du8, 0x70u8, 0x33u8][1] != "mov".spec_bytes()[1]);
    assert(seq![0x6Du8, 0x70u8, 0x33u8][0] != "avi".spec_bytes()[0]);
    assert(seq![0x6Du8, 0x70u8, 0x33u8][1] != "mkv".spec_bytes()[1]);
    assert(seq![0x6Du8, 0x70u8, 0x33u8].len() != "webm".spec_bytes().len());
}

proof fn lemma_extension_mime_wav()
    ensures
        extension_mime(seq![0x77u8, 0x61u8, 0x76u8]) == Some("audio/wav"@),
{
    lemma_bytes_of_png();
    lemma_bytes_of_apng();
    lemma_bytes_of_jpg();
    lemma_bytes_of_jpeg();
    lemma_bytes_of_bmp();
    lemma_bytes_of_tif();
    lemma_bytes_of_tiff();
    lemma_bytes_of_webp();
    lemma_bytes_of_gif();
    lemma_bytes_of_mp4();
    lemma_bytes_of_m4a();
    lemma_bytes_of_mov();
    lemma_bytes_of_avi();
    lemma_bytes_of_mkv();
    lemma_bytes_of_webm();
    lemma_bytes_of_mp3();
    lemma_bytes_of_wav();
    assert(!is_one_of(seq![0x77u8, 0x61u8, 0x76u8], seq!["png", "apng"])) by {
        let names: Seq<&str> = seq!["png", "apng"];
        assert forall|i: int| 0 <= i < names.len() implies names[i].spec_bytes() != seq![0x77u8, 0x61u8, 0x76u8] by {
            if i == 0 { assert(seq![0x77u8, 0x61u8, 0x76u8][0] != "png".spec_bytes()[0]); }
            if i == 1 { assert(seq![0x77u8, 0x61u8, 0x76u8].len() != "apng".spec_bytes().len()); }
        }
    }
    assert(!is_one_of(seq![0x77u8, 0x61u8, 0x76u8], seq!["jpg", "jpeg"])) by {
        let names: Seq<&str> = seq!["jpg", "jpeg"];
        assert forall|i: int| 0 <= i < names.len() implies names[i].spec_bytes() != seq![0x77u8, 0x61u8, 0x76u8] by {
            if i == 0 { assert(seq![0x77u8, 0x61u8, 0x76u8][0] != "jpg".spec_bytes()[0]); }
            if i == 1 { assert(seq![0x77u8, 0x61u8, 0x76u8].len() != "jpeg".spec_bytes().len()); }
        }
    }
    assert(seq![0x77u8, 0x61u8, 0x76u8][0] != "bmp".spec_bytes()[0]);
    assert(!is_one_of(seq![0x77u8, 0x61u8, 0x76u8], seq!["tif", "tiff"])) by {
        let names: Seq<&str> = seq!["tif", "tiff"];
        assert forall|i: int| 0 <= i < names.len() implies names[i].spec_bytes() != seq![0x77u8, 0x61u8, 0x76u8] by {
            if i == 0 { assert(seq![0x77u8, 0x61u8, 0x76u8][0] != "tif".spec_bytes()[0]); }
            if i == 1 { assert(seq![0x77u8, 0x61u8, 0x76u8].len() != "tiff".spec_bytes().len()); }
        }
    }
    assert(seq![0x77u8, 0x61u8, 0x76u8].len() != "webp".spec_bytes().len());
    assert(seq![0x77u8, 0x61u8, 0x76u8][0] != "gif".spec_bytes()[0]);
    assert(!is_one_of(seq![0x77u8, 0x61u8, 0x76u8], seq!["mp4", "m4a"])) by {
        let names: Seq<&str> = seq!["mp4", "m4a"];
        assert forall|i: int| 0 <= i < names.len() implies names[i].spec_bytes() != seq![0x77u8, 0x61u8, 0x76u8] by {
            if i == 0 { assert(seq![0x77u8, 0x61u8, 0x76u8][0] != "mp4".spec_bytes()[0]); }
            if i == 1 { assert(seq![0x77u8, 0x61u8, 0x76u8][0] != "m4a".spec_bytes()[0]); }
        }
    }
    assert(seq![0x77u8, 0x61u8, 0x76u8][0] != "mov".spec_bytes()[0]);
    assert(seq![0x77u8, 0x61u8, 0x76u8][0] != "avi".spec_bytes()[0]);
    assert(seq![0x77u8, 0x61u8, 0x76u8][0] != "mkv".spec_bytes()[0]);
    assert(seq![0x77u8, 0x61u8, 0x76u8].len() != "webm".spec_bytes().len());
    assert(seq![0x77u8, 0x61u8, 0x76u8][0] != "mp3".spec_bytes()[0]);
}

proof fn lemma_extension_mime_flac()
    ensures
        extension_mime(seq![0x66u8, 0x6Cu8, 0x61u8, 0x63u8]) == Some("audio/flac"@),
{
    lemma_bytes_of_png();
    lemma_bytes_of_apng();
    lemma_bytes_of_jpg();
    lemma_bytes_of_jpeg();
    lemma_bytes_of_bmp();
    lemma_bytes_of_tif();
    lemma_bytes_of_tiff();
    lemma_bytes_of_webp();
    lemma_bytes_of_gif();
    lemma_bytes_of_mp4();
    lemma_bytes_of_m4a();
    lemma_bytes_of_mov();
    lemma_bytes_of_avi();
    lemma_bytes_of_mkv();
    lemma_bytes_of_webm();
    lemma_bytes_of_mp3();
    lemma_bytes_of_wav();
    lemma_bytes_of_flac();
    assert(!is_one_of(seq![0x66u8, 0x6Cu8, 0x61u8, 0x63u8], seq!["png", "apng"])) by {
        let names: Seq<&str> = seq!["png", "apng"];
        assert forall|i: int| 0 <= i < names.len() implies names[i].spec_bytes() != seq![0x66u8, 0x6Cu8, 0x61u8, 0x63u8] by {
            if i == 0 { assert(seq![0x66u8, 0x6Cu8, 0x61u8, 0x63u8].len() != "png".spec_bytes().len()); }
            if i == 1 { assert(seq![0x66u8, 0x6Cu8, 0x61u8, 0x63u8][0] != "apng".spec_bytes()[0]); }
        }
    }
    assert(!is_one_of(seq![0x66u8, 0x6Cu8, 0x61u8, 0x63u8], seq!["jpg", "jpeg"])) by {
        let names: Seq<&str> = seq!["jpg", "jpeg"];
        assert forall|i: int| 0 <= i < names.len() implies names[i].spec_bytes() != seq![0x66u8, 0x6Cu8, 0x61u8, 0x63u8] by {
            if i == 0 { assert(seq![0x66u8, 0x6Cu8, 0x61u8, 0x63u8].len() != "jpg".spec_bytes().len()); }
            if i == 1 { assert(seq![0x66u8, 0x6Cu8, 0x61u8, 0x63u8][0] != "jpeg".spec_bytes()[0]); }
        }
    }
    assert(seq![0x66u8, 0x6Cu8, 0x61u8, 0x63u8].len() != "bmp".spec_bytes().len());
    assert(!is_one_of(seq![0x66u8, 0x6Cu8, 0x61u8, 0x63u8], seq!["tif", "tiff"])) by {
        let names: Seq<&str> = seq!["tif", "tiff"];
        assert forall|i: int| 0 <= i < names.len() implies names[i].spec_bytes() != seq![0x66u8, 0x6Cu8, 0x61u8, 0x63u8] by {
            if i == 0 { assert(seq![0x66u8, 0x6Cu8, 0x61u8, 0x63u8].len() != "tif".spec_bytes().len()); }
            if i == 1 { assert(seq![0x66u8, 0x6Cu8, 0x61u8, 0x63u8][0] != "tiff".spec_bytes()[0]); }
        }
    }
    assert(seq![0x66u8, 0x6Cu8, 0x61u8, 0x63u8][0] != "webp".spec_bytes()[0]);
    assert(seq![0x66u8, 0x6Cu8, 0x61u8, 0x63u8].len() != "gif".spec_bytes().len());
    assert(!is_one_of(seq![0x66u8, 0x6Cu8, 0x61u8, 0x63u8], seq!["mp4", "m4a"])) by {
        let names: Seq<&str> = seq!["mp4", "m4a"];
        assert forall|i: int| 0 <= i < names.len() implies names[i].spec_bytes() != seq![0x66u8, 0x6Cu8, 0x61u8, 0x63u8] by {
            if i == 0 { assert(seq![0x66u8, 0x6Cu8, 0x61u8, 0x63u8].len() != "mp4".spec_bytes().len()); }
            if i == 1 { assert(seq![0x66u8, 0x6Cu8, 0x61u8, 0x63u8].len() != "m4a".spec_bytes().len()); }
        }
    }
    assert(seq![0x66u8, 0x6Cu8, 0x61u8, 0x63u8].len() != "mov".spec_bytes().len());
    assert(seq![0x66u8, 0x6Cu8, 0x61u8, 0x63u8].len() != "avi".spec_bytes().len());
    assert(seq![0x66u8, 0x6Cu8, 0x61u8, 0x63u8].len() != "mkv".spec_bytes().len());
    assert(seq![0x66u8, 0x6Cu8, 0x61u8, 0x63u8][0] != "webm".spec_bytes()[0]);
    assert(seq![0x66u8, 0x6Cu8, 0x61u8, 0x63u8].len() != "mp3".spec_bytes().len());
    assert(seq![0x66u8, 0x6Cu8, 0x61u8, 0x63u8].len() != "wav".spec_bytes().len());
}

proof fn lemma_extension_mime_aac()
    ensures
        extension_mime(seq![0x61u8, 0x61u8, 0x63u8]) == Some("audio/aac"@),
{
    lemma_bytes_of_png();
    lemma_bytes_of_apng();
    lemma_bytes_of_jpg();
    lemma_bytes_of_jpeg();
    lemma_bytes_of_bmp();
    lemma_bytes_of_tif();
    lemma_bytes_of_tiff();
    lemma_bytes_of_webp();
    lemma_bytes_of_gif();
    lemma_bytes_of_mp4();
    lemma_bytes_of_m4a();
    lemma_bytes_of_mov();
    lemma_bytes_of_avi();
    lemma_bytes_of_mkv();
    lemma_bytes_of_webm();
    lemma_bytes_of_mp3();
    lemma_bytes_of_wav();
    lemma_bytes_of_flac();
    lemma_bytes_of_aac();
    assert(!is_one_of(seq![0x61u8, 0x61u8, 0x63u8], seq!["png", "apng"])) by {
        let names: Seq<&str> = seq!["png", "apng"];
        assert forall|i: int| 0 <= i < names.len() implies names[i].spec_bytes() != seq![0x61u8, 0x61u8, 0x63u8] by {
            if i == 0 { assert(seq![0x61u8, 0x61u8, 0x63u8][0] != "png".spec_bytes()[0]); }
            if i == 1 { assert(seq![0x61u8, 0x61u8, 0x63u8].len() != "apng".spec_bytes().len()); }
        }
    }
    assert(!is_one_of(seq![0x61u8, 0x61u8, 0x63u8], seq!["jpg", "jpeg"])) by {
        let names: Seq<&str> = seq!["jpg", "jpeg"];
        assert forall|i: int| 0 <= i < names.len() implies names[i].spec_bytes() != seq![0x61u8, 0x61u8, 0x63u8] by {
            if i == 0 { assert(seq![0x61u8, 0x61u8, 0x63u8][0] != "jpg".spec_bytes()[0]); }
            if i == 1 { assert(seq![0x61u8, 0x61u8, 0x63u8].len() != "jpeg".spec_bytes().len()); }
        }
    }
    assert(seq![0x61u8, 0x61u8, 0x63u8][0] != "bmp".spec_bytes()[0]);
    assert(!is_one_of(seq![0x61u8, 0x61u8, 0x63u8], seq!["tif", "tiff"])) by {
        let names: Seq<&str> = seq!["tif", "tiff"];
        assert forall|i: int| 0 <= i < names.len() implies names[i].spec_bytes() != seq![0x61u8, 0x61u8, 0x63u8] by {
            if i == 0 { assert(seq![0x61u8, 0x61u8, 0x63u8][0] != "tif".spec_bytes()[0]); }
            if i == 1 { assert(seq![0x61u8, 0x61u8, 0x63u8].len() != "tiff".spec_bytes().len()); }
        }
    }
    assert(seq![0x61u8, 0x61u8, 0x63u8].len() != "webp".spec_bytes().len());
    assert(seq![0x61u8, 0x61u8, 0x63u8][0] != "gif".spec_bytes()[0]);
    assert(!is_one_of(seq![0x61u8, 0x61u8, 0x63u8], seq!["mp4", "m4a"])) by {
        let names: Seq<&str> = seq!["mp4", "m4a"];
        assert forall|i: int| 0 <= i < names.len() implies names[i].spec_bytes() != seq![0x61u8, 0x61u8, 0x63u8] by {
            if i == 0 { assert(seq![0x61u8, 0x61u8, 0x63u8][0] != "mp4".spec_bytes()[0]); }
            if i == 1 { assert(seq![0x61u8, 0x61u8, 0x63u8][0] != "m4a".spec_bytes()[0]); }
        }
    }
    assert(seq![0x61u8, 0x61u8, 0x63u8][0] != "mov".spec_bytes()[0]);
    assert(seq![0x61u8, 0x61u8, 0x63u8][1] != "avi".spec_bytes()[1]);
    assert(seq![0x61u8, 0x61u8, 0x63u8][0] != "mkv".spec_bytes()[0]);
    assert(seq![0x61u8, 0x61u8, 0x63u8].len() != "webm".spec_bytes().len());
    assert(seq![0x61u8, 0x61u8, 0x63u8][0] != "mp3".spec_bytes()[0]);
    assert(seq![0x61u8, 0x61u8, 0x63u8][0] != "wav".spec_bytes()[0]);
    assert(seq![0x61u8, 0x61u8, 0x63u8].len() != "flac".spec_bytes().len());
}

proof fn lemma_extension_mime_ogg()
    ensures
        extension_mime(seq![0x6Fu8, 0x67u8, 0x67u8]) == Some("audio/ogg"@),
{
    lemma_bytes_of_png();
    lemma_bytes_of_apng();
    lemma_bytes_of_jpg();
    lemma_bytes_of_jpeg();
    lemma_bytes_of_bmp();
    lemma_bytes_of_tif();
    lemma_bytes_of_tiff();
    lemma_bytes_of_webp();
    lemma_bytes_of_gif();
    lemma_bytes_of_mp4();
    lemma_bytes_of_m4a();
    lemma_bytes_of_mov();
    lemma_bytes_of_avi();
    lemma_bytes_of_mkv();
    lemma_bytes_of_webm();
    lemma_bytes_of_mp3();
    lemma_bytes_of_wav();
    lemma_bytes_of_flac();
    lemma_bytes_of_aac();
    lemma_bytes_of_ogg();
    assert(!is_one_of(seq![0x6Fu8, 0x67u8, 0x67u8], seq!["png", "apng"])) by {
        let names: Seq<&str> = seq!["png", "apng"];
        assert forall|i: int| 0 <= i < names.len() implies names[i].spec_bytes() != seq![0x6Fu8, 0x67u8, 0x67u8] by {
            if i == 0 { assert(seq![0x6Fu8, 0x67u8, 0x67u8][0] != "png".spec_bytes()[0]); }
            if i == 1 { assert(seq![0x6Fu8, 0x67u8, 0x67u8].len() != "apng".spec_bytes().len()); }
        }
    }
    assert(!is_one_of(seq![0x6Fu8, 0x67u8, 0x67u8], seq!["jpg", "jpeg"])) by {
        let names: Seq<&str> = seq!["jpg", "jpeg"];
        assert forall|i: int| 0 <= i < names.len() implies names[i].spec_bytes() != seq![0x6Fu8, 0x67u8, 0x67u8] by {
            if i == 0 { assert(seq![0x6Fu8, 0x67u8, 0x67u8][0] != "jpg".spec_bytes()[0]); }
            if i == 1 { assert(seq![0x6Fu8, 0x67u8, 0x67u8].len() != "jpeg".spec_bytes().len()); }
        }
    }
    assert(seq![0x6Fu8, 0x67u8, 0x67u8][0] != "bmp".spec_bytes()[0]);
    assert(!is_one_of(seq![0x6Fu8, 0x67u8, 0x67u8], seq!["tif", "tiff"])) by {
        let names: Seq<&str> = seq!["tif", "tiff"];
        assert forall|i: int| 0 <= i < names.len() implies names[i].spec_bytes() != seq![0x6Fu8, 0x67u8, 0x67u8] by {
            if i == 0 { assert(seq![0x6Fu8, 0x67u8, 0x67u8][0] != "tif".spec_bytes()[0]); }
            if i == 1 { assert(seq![0x6Fu8, 0x67u8, 0x67u8].len() != "tiff".spec_bytes().len()); }
        }
    }
    assert(seq![0x6Fu8, 0x67u8, 0x67u8].len() != "webp".spec_bytes().len());
    assert(seq![0x6Fu8, 0x67u8, 0x67u8][0] != "gif".spec_bytes()[0]);
    assert(!is_one_of(seq![0x6Fu8, 0x67u8, 0x67u8], seq!["mp4", "m4a"])) by {
        let names: Seq<&str> = seq!["mp4", "m4a"];
        assert forall|i: int| 0 <= i < names.len() implies names[i].spec_bytes() != seq![0x6Fu8, 0x67u8, 0x67u8] by {
            if i == 0 { assert(seq![0x6Fu8, 0x67u8, 0x67u8][0] != "mp4".spec_bytes()[0]); }
            if i == 1 { assert(seq![0x6Fu8, 0x67u8, 0x67u8][0] != "m4a".spec_bytes()[0]); }
        }
    }
    assert(seq![0x6Fu8, 0x67u8, 0x67u8][0] != "mov".spec_bytes()[0]);
    assert(seq![0x6Fu8, 0x67u8, 0x67u8][0] != "avi".spec_bytes()[0]);
    assert(seq![0x6Fu8, 0x67u8, 0x67u8][0] != "mkv".spec_bytes()[0]);
    assert(seq![0x6Fu8, 0x67u8, 0x67u8].len() != "webm".spec_bytes().len());
    assert(seq![0x6Fu8, 0x67u8, 0x67u8][0] != "mp3".spec_bytes()[0]);
    assert(seq![0x6Fu8, 0x67u8, 0x67u8][0] != "wav".spec_bytes()[0]);
    assert(seq![0x6Fu8, 0x67u8, 0x67u8].len() != "flac".spec_bytes().len());
    assert(seq![0x6Fu8, 0x67u8, 0x67u8][0] != "aac".spec_bytes()[0]);
    assert(seq!["ogg", "oga", "opus"][0].spec_bytes() == seq![0x6Fu8, 0x67u8, 0x67u8]);
}

proof fn lemma_extension_mime_oga()
    ensures
        extension_mime(seq![0x6Fu8, 0x67u8, 0x61u8]) == Some("audio/ogg"@),
{
    lemma_bytes_of_png();
    lemma_bytes_of_apng();
    lemma_bytes_of_jpg();
    lemma_bytes_of_jpeg();
    lemma_bytes_of_bmp();
    lemma_bytes_of_tif();
    lemma_bytes_of_tiff();
    lemma_bytes_of_webp();
    lemma_bytes_of_gif();
    lemma_bytes_of_mp4();
    lemma_bytes_of_m4a();
    lemma_bytes_of_mov();
    lemma_bytes_of_avi();
    lemma_bytes_of_mkv();
    lemma_bytes_of_webm();
    lemma_bytes_of_mp3();
    lemma_bytes_of_wav();
    lemma_bytes_of_flac();
    lemma_bytes_of_aac();
    lemma_bytes_of_oga();
    assert(!is_one_of(seq![0x6Fu8, 0x67u8, 0x61u8], seq!["png", "apng"])) by {
        let names: Seq<&str> = seq!["png", "apng"];
        assert forall|i: int| 0 <= i < names.len() implies names[i].spec_bytes() != seq![0x6Fu8, 0x67u8, 0x61u8] by {
            if i == 0 { assert(seq![0x6Fu8, 0x67u8, 0x61u8][0] != "png".spec_bytes()[0]); }
            if i == 1 { assert(seq![0x6Fu8, 0x67u8, 0x61u8].len() != "apng".spec_bytes().len()); }
        }
    }
    assert(!is_one_of(seq![0x6Fu8, 0x67u8, 0x61u8], seq!["jpg", "jpeg"])) by {
        let names: Seq<&str> = seq!["jpg", "jpeg"];
        assert forall|i: int| 0 <= i < names.len() implies names[i].spec_bytes() != seq![0x6Fu8, 0x67u8, 0x61u8] by {
            if i == 0 { assert(seq![0x6Fu8, 0x67u8, 0x61u8][0] != "jpg".spec_bytes()[0]); }
            if i == 1 { assert(seq![0x6Fu8, 0x67u8, 0x61u8].len() != "jpeg".spec_bytes().len()); }
        }
    }
    assert(seq![0x6Fu8, 0x67u8, 0x61u8][0] != "bmp".spec_bytes()[0]);
    assert(!is_one_of(seq![0x6Fu8, 0x67u8, 0x61u8], seq!["tif", "tiff"])) by {
        let names: Seq<&str> = seq!["tif", "tiff"];
        assert forall|i: int| 0 <= i < names.len() implies names[i].spec_bytes() != seq![0x6Fu8, 0x67u8, 0x61u8] by {
            if i == 0 { assert(seq![0x6Fu8, 0x67u8, 0x61u8][0] != "tif".spec_bytes()[0]); }
            if i == 1 { assert(seq![0x6Fu8, 0x67u8, 0x61u8].len() != "tiff".spec_bytes().len()); }
        }
    }
    assert(seq![0x6Fu8, 0x67u8, 0x61u8].len() != "webp".spec_bytes().len());
    assert(seq![0x6Fu8, 0x67u8, 0x61u8][0] != "gif".spec_bytes()[0]);
    assert(!is_one_of(seq![0x6Fu8, 0x67u8, 0x61u8], seq!["mp4", "m4a"])) by {
        let names: Seq<&str> = seq!["mp4", "m4a"];
        assert forall|i: int| 0 <= i < names.len() implies names[i].spec_bytes() != seq![0x6Fu8, 0x67u8, 0x61u8] by {
            if i == 0 { assert(seq![0x6Fu8, 0x67u8, 0x61u8][0] != "mp4".spec_bytes()[0]); }
            if i == 1 { assert(seq![0x6Fu8, 0x67u8, 0x61u8][0] != "m4a".spec_bytes()[0]); }
        }
    }
    assert(seq![0x6Fu8, 0x67u8, 0x61u8][0] != "mov".spec_bytes()[0]);
    assert(seq![0x6Fu8, 0x67u8, 0x61u8][0] != "avi".spec_bytes()[0]);
    assert(seq![0x6Fu8, 0x67u8, 0x61u8][0] != "mkv".spec_bytes()[0]);
    assert(seq![0x6Fu8, 0x67u8, 0x61u8].len() != "webm".spec_bytes().len());
    assert(seq![0x6Fu8, 0x67u8, 0x61u8][0] != "mp3".spec_bytes()[0]);
    assert(seq![0x6Fu8, 0x67u8, 0x61u8][0] != "wav".spec_bytes()[0]);
    assert(seq![0x6Fu8, 0x67u8, 0x61u8].len() != "flac".spec_bytes().len());
    assert(seq![0x6Fu8, 0x67u8, 0x61u8][0] != "aac".spec_bytes()[0]);
    assert(seq!["ogg", "oga", "opus"][1].spec_bytes() == seq![0x6Fu8, 0x67u8, 0x61u8]);
}

proof fn lemma_extension_mime_opus()
    ensures
        extension_mime(seq![0x6Fu8, 0x70u8, 0x75u8, 0x73u8]) == Some("audio/ogg"@),
{
    lemma_bytes_of_png();
    lemma_bytes_of_apng();
    lemma_bytes_of_jpg();
    lemma_bytes_of_jpeg();
    lemma_bytes_of_bmp();
    lemma_bytes_of_tif();
    lemma_bytes_of_tiff();
    lemma_bytes_of_webp();
    lemma_bytes_of_gif();
    lemma_bytes_of_mp4();
    lemma_bytes_of_m4a();
    lemma_bytes_of_mov();
    lemma_bytes_of_avi();
    lemma_bytes_of_mkv();
    lemma_bytes_of_webm();
    lemma_bytes_of_mp3();
    lemma_bytes_of_wav();
    lemma_bytes_of_flac();
    lemma_bytes_of_aac();
    lemma_bytes_of_opus();
    assert(!is_one_of(seq![0x6Fu8, 0x70u8, 0x75u8, 0x73u8], seq!["png", "apng"])) by {
        let names: Seq<&str> = seq!["png", "apng"];
        assert forall|i: int| 0 <= i < names.len() implies names[i].spec_bytes() != seq![0x6Fu8, 0x70u8, 0x75u8, 0x73u8] by {
            if i == 0 { assert(seq![0x6Fu8, 0x70u8, 0x75u8, 0x73u8].len() != "png".spec_bytes().len()); }
            if i == 1 { assert(seq![0x6Fu8, 0x70u8, 0x75u8, 0x73u8][0] != "apng".spec_bytes()[0]); }
        }
    }
    assert(!is_one_of(seq![0x6Fu8, 0x70u8, 0x75u8, 0x73u8], seq!["jpg", "jpeg"])) by {
        let names: Seq<&str> = seq!["jpg", "jpeg"];
        assert forall|i: int| 0 <= i < names.len() implies names[i].spec_bytes() != seq![0x6Fu8, 0x70u8, 0x75u8, 0x73u8] by {
            if i == 0 { assert(seq![0x6Fu8, 0x70u8, 0x75u8, 0x73u8].len() != "jpg".spec_bytes().len()); }
            if i == 1 { assert(seq![0x6Fu8, 0x70u8, 0x75u8, 0x73u8][0] != "jpeg".spec_bytes()[0]); }
        }
    }
    assert(seq![0x6Fu8, 0x70u8, 0x75u8, 0x73u8].len() != "bmp".spec_bytes().len());
    assert(!is_one_of(seq![0x6Fu8, 0x70u8, 0x75u8, 0x73u8], seq!["tif", "tiff"])) by {
        let names: Seq<&str> = seq!["tif", "tiff"];
        assert forall|i: int| 0 <= i < names.len() implies names[i].spec_bytes() != seq![0x6Fu8, 0x70u8, 0x75u8, 0x73u8] by {
            if i == 0 { assert(seq![0x6Fu8, 0x70u8, 0x75u8, 0x73u8].len() != "tif".spec_bytes().len()); }
            if i == 1 { assert(seq![0x6Fu8, 0x70u8, 0x75u8, 0x73u8][0] != "tiff".spec_bytes()[0]); }
        }
    }
    assert(seq![0x6Fu8, 0x70u8, 0x75u8, 0x73u8][0] != "webp".spec_bytes()[0]);
    assert(seq![0x6Fu8, 0x70u8, 0x75u8, 0x73u8].len() != "gif".spec_bytes().len());
    assert(!is_one_of(seq![0x6Fu8, 0x70u8, 0x75u8, 0x73u8], seq!["mp4", "m4a"])) by {
        let names: Seq<&str> = seq!["mp4", "m4a"];
        assert forall|i: int| 0 <= i < names.len() implies names[i].spec_bytes() != seq![0x6Fu8, 0x70u8, 0x75u8, 0x73u8] by {
            if i == 0 { assert(seq![0x6Fu8, 0x70u8, 0x75u8, 0x73u8].len() != "mp4".spec_bytes().len()); }
            if i == 1 { assert(seq![0x6Fu8, 0x70u8, 0x75u8, 0x73u8].len() != "m4a".spec_bytes().len()); }
        }
    }
    assert(seq![0x6Fu8, 0x70u8, 0x75u8, 0x73u8].len() != "mov".spec_bytes().len());
    assert(seq![0x6Fu8, 0x70u8, 0x75u8, 0x73u8].len() != "avi".spec_bytes().len());
    assert(seq![0x6Fu8, 0x70u8, 0x75u8, 0x73u8].len() != "mkv".spec_bytes().len());
    assert(seq![0x6Fu8, 0x70u8, 0x75u8, 0x73u8][0] != "webm".spec_bytes()[0]);
    assert(seq![0x6Fu8, 0x70u8, 0x75u8, 0x73u8].len() != "mp3".spec_bytes().len());
    assert(seq![0x6Fu8, 0x70u8, 0x75u8, 0x73u8].len() != "wav".spec_bytes().len());
    assert(seq![0x6Fu8, 0x70u8, 0x75u8, 0x73u8][0] != "flac".spec_bytes()[0]);
    assert(seq![0x6Fu8, 0x70u8, 0x75u8, 0x73u8].len() != "aac".spec_bytes().len());
    assert(seq!["ogg", "oga", "opus"][2].spec_bytes() == seq![0x6Fu8, 0x70u8, 0x75u8, 0x73u8]);
}

proof fn lemma_extension_mime_amr()
    ensures
        extension_mime(seq![0x61u8, 0x6Du8, 0x72u8]) == Some("audio/amr"@),
{
    lemma_bytes_of_png();
    lemma_bytes_of_apng();
    lemma_bytes_of_jpg();
    lemma_bytes_of_jpeg();
    lemma_bytes_of_bmp();
    lemma_bytes_of_tif();
    lemma_bytes_of_tiff();
    lemma_bytes_of_webp();
    lemma_bytes_of_gif();
    lemma_bytes_of_mp4();
    lemma_bytes_of_m4a();
    lemma_bytes_of_mov();
    lemma_bytes_of_avi();
    lemma_bytes_of_mkv();
    lemma_bytes_of_webm();
    lemma_bytes_of_mp3();
    lemma_bytes_of_wav();
    lemma_bytes_of_flac();
    lemma_bytes_of_aac();
    lemma_bytes_of_ogg();
    lemma_bytes_of_oga();
    lemma_bytes_of_opus();
    lemma_bytes_of_amr();
    assert(!is_one_of(seq![0x61u8, 0x6Du8, 0x72u8], seq!["png", "apng"])) by {
        let names: Seq<&str> = seq!["png", "apng"];
        assert forall|i: int| 0 <= i < names.len() implies names[i].spec_bytes() != seq![0x61u8, 0x6Du8, 0x72u8] by {
            if i == 0 { assert(seq![0x61u8, 0x6Du8, 0x72u8][0] != "png".spec_bytes()[0]); }
            if i == 1 { assert(seq![0x61u8, 0x6Du8, 0x72u8].len() != "apng".spec_bytes().len()); }
        }
    }
    assert(!is_one_of(seq![0x61u8, 0x6Du8, 0x72u8], seq!["jpg", "jpeg"])) by {
        let names: Seq<&str> = seq!["jpg", "jpeg"];
        assert forall|i: int| 0 <= i < names.len() implies names[i].spec_bytes() != seq![0x61u8, 0x6Du8, 0x72u8] by {
            if i == 0 { assert(seq![0x61u8, 0x6Du8, 0x72u8][0] != "jpg".spec_bytes()[0]); }
            if i == 1 { assert(seq![0x61u8, 0x6Du8, 0x72u8].len() != "jpeg".spec_bytes().len()); }
        }
    }
    assert(seq![0x61u8, 0x6Du8, 0x72u8][0] != "bmp".spec_bytes()[0]);
    assert(!is_one_of(seq![0x61u8, 0x6Du8, 0x72u8], seq!["tif", "tiff"])) by {
        let names: Seq<&str> = seq!["tif", "tiff"];
        assert forall|i: int| 0 <= i < names.len() implies names[i].spec_bytes() != seq![0x61u8, 0x6Du8, 0x72u8] by {
            if i == 0 { assert(seq![0x61u8, 0x6Du8, 0x72u8][0] != "tif".spec_bytes()[0]); }
            if i == 1 { assert(seq![0x61u8, 0x6Du8, 0x72u8].len() != "tiff".spec_bytes().len()); }
        }
    }
    assert(seq![0x61u8, 0x6Du8, 0x72u8].len() != "webp".spec_bytes().len());
    assert(seq![0x61u8, 0x6Du8, 0x72u8][0] != "gif".spec_bytes()[0]);
    assert(!is_one_of(seq![0x61u8, 0x6Du8, 0x72u8], seq!["mp4", "m4a"])) by {
        let names: Seq<&str> = seq!["mp4", "m4a"];
        assert forall|i: int| 0 <= i < names.len() implies names[i].spec_bytes() != seq![0x61u8, 0x6Du8, 0x72u8] by {
            if i == 0 { assert(seq![0x61u8, 0x6Du8, 0x72u8][0] != "mp4".spec_bytes()[0]); }
            if i == 1 { assert(seq![0x61u8, 0x6Du8, 0x72u8][0] != "m4a".spec_bytes()[0]); }
        }
    }
    assert(seq![0x61u8, 0x6Du8, 0x72u8][0] != "mov".spec_bytes()[0]);
    assert(seq![0x61u8, 0x6Du8, 0x72u8][1] != "avi".spec_bytes()[1]);
    assert(seq![0x61u8, 0x6Du8, 0x72u8][0] != "mkv".spec_bytes()[0]);
    assert(seq![0x61u8, 0x6Du8, 0x72u8].len() != "webm".spec_bytes().len());
    assert(seq![0x61u8, 0x6Du8, 0x72u8][0] != "mp3".spec_bytes()[0]);
    assert(seq![0x61u8, 0x6Du8, 0x72u8][0] != "wav".spec_bytes()[0]);
    assert(seq![0x61u8, 0x6Du8, 0x72u8].len() != "flac".spec_bytes().len());
    assert(seq![0x61u8, 0x6Du8, 0x72u8][1] != "aac".spec_bytes()[1]);
    assert(!is_one_of(seq![0x61u8, 0x6Du8, 0x72u8], seq!["ogg", "oga", "opus"])) by {
        let names: Seq<&str> = seq!["ogg", "oga", "opus"];
        assert forall|i: int| 0 <= i < names.len() implies names[i].spec_bytes() != seq![0x61u8, 0x6Du8, 0x72u8] by {
            if i == 0 { assert(seq![0x61u8, 0x6Du8, 0x72u8][0] != "ogg".spec_bytes()[0]); }
            if i == 1 { assert(seq![0x61u8, 0x6Du8, 0x72u8][0] != "oga".spec_bytes()[0]); }
            if i == 2 { assert(seq![0x61u8, 0x6Du8, 0x72u8].len() != "opus".spec_bytes().len()); }
        }
    }
}

proof fn lemma_extension_mime_aif()
    ensures
        extension_mime(seq![0x61u8, 0x69u8, 0x66u8]) == Some("audio/aiff"@),
{
    lemma_bytes_of_png();
    lemma_bytes_of_apng();
    lemma_bytes_of_jpg();
    lemma_bytes_of_jpeg();
    lemma_bytes_of_bmp();
    lemma_bytes_of_tif();
    lemma_bytes_of_tiff();
    lemma_bytes_of_webp();
    lemma_bytes_of_gif();
    lemma_bytes_of_mp4();
    lemma_bytes_of_m4a();
    lemma_bytes_of_mov();
    lemma_bytes_of_avi();
    lemma_bytes_of_mkv();
    lemma_bytes_of_webm();
    lemma_bytes_of_mp3();
    lemma_bytes_of_wav();
    lemma_bytes_of_flac();
    lemma_bytes_of_aac();
    lemma_bytes_of_ogg();
    lemma_bytes_of_oga();
    lemma_bytes_of_opus();
    lemma_bytes_of_amr();
    lemma_bytes_of_aif();
    assert(!is_one_of(seq![0x61u8, 0x69u8, 0x66u8], seq!["png", "apng"])) by {
        let names: Seq<&str> = seq!["png", "apng"];
        assert forall|i: int| 0 <= i < names.len() implies names[i].spec_bytes() != seq![0x61u8, 0x69u8, 0x66u8] by {
            if i == 0 { assert(seq![0x61u8, 0x69u8, 0x66u8][0] != "png".spec_bytes()[0]); }
            if i == 1 { assert(seq![0x61u8, 0x69u8, 0x66u8].len() != "apng".spec_bytes().len()); }
        }
    }
    assert(!is_one_of(seq![0x61u8, 0x69u8, 0x66u8], seq!["jpg", "jpeg"])) by {
        let names: Seq<&str> = seq!["jpg", "jpeg"];
        assert forall|i: int| 0 <= i < names.len() implies names[i].spec_bytes() != seq![0x61u8, 0x69u8, 0x66u8] by {
            if i == 0 { assert(seq![0x61u8, 0x69u8, 0x66u8][0] != "jpg".spec_bytes()[0]); }
            if i == 1 { assert(seq![0x61u8, 0x69u8, 0x66u8].len() != "jpeg".spec_bytes().len()); }
        }
    }
    assert(seq![0x61u8, 0x69u8, 0x66u8][0] != "bmp".spec_bytes()[0]);
    assert(!is_one_of(seq![0x61u8, 0x69u8, 0x66u8], seq!["tif", "tiff"])) by {
        let names: Seq<&str> = seq!["tif", "tiff"];
        assert forall|i: int| 0 <= i < names.len() implies names[i].spec_bytes() != seq![0x61u8, 0x69u8, 0x66u8] by {
            if i == 0 { assert(seq![0x61u8, 0x69u8, 0x66u8][0] != "tif".spec_bytes()[0]); }
            if i == 1 { assert(seq![0x61u8, 0x69u8, 0x66u8].len() != "tiff".spec_bytes().len()); }
        }
    }
    assert(seq![0x61u8, 0x69u8, 0x66u8].len() != "webp".spec_bytes().len());
    assert(seq![0x61u8, 0x69u8, 0x66u8][0] != "gif".spec_bytes()[0]);
    assert(!is_one_of(seq![0x61u8, 0x69u8, 0x66u8], seq!["mp4", "m4a"])) by {
        let names: Seq<&str> = seq!["mp4", "m4a"];
        assert forall|i: int| 0 <= i < names.len() implies names[i].spec_bytes() != seq![0x61u8, 0x69u8, 0x66u8] by {
            if i == 0 { assert(seq![0x61u8, 0x69u8, 0x66u8][0] != "mp4".spec_bytes()[0]); }
            if i == 1 { assert(seq![0x61u8, 0x69u8, 0x66u8][0] != "m4a".spec_bytes()[0]); }
        }
    }
    assert(seq![0x61u8, 0x69u8, 0x66u8][0] != "mov".spec_bytes()[0]);
    assert(seq![0x61u8, 0x69u8, 0x66u8][1] != "avi".spec_bytes()[1]);
    assert(seq![0x61u8, 0x69u8, 0x66u8][0] != "mkv".spec_bytes()[0]);
    assert(seq![0x61u8, 0x69u8, 0x66u8].len() != "webm".spec_bytes().len());
    assert(seq![0x61u8, 0x69u8, 0x66u8][0] != "mp3".spec_bytes()[0]);
    assert(seq![0x61u8, 0x69u8, 0x66u8][0] != "wav".spec_bytes()[0]);
    assert(seq![0x61u8, 0x69u8, 0x66u8].len() != "flac".spec_bytes().len());
    assert(seq![0x61u8, 0x69u8, 0x66u8][1] != "aac".spec_bytes()[1]);
    assert(!is_one_of(seq![0x61u8, 0x69u8, 0x66u8], seq!["ogg", "oga", "opus"])) by {
        let names: Seq<&str> = seq!["ogg", "oga", "opus"];
        assert forall|i: int| 0 <= i < names.len() implies names[i].spec_bytes() != seq![0x61u8, 0x69u8, 0x66u8] by {
            if i == 0 { assert(seq![0x61u8, 0x69u8, 0x66u8][0] != "ogg".spec_bytes()[0]); }
            if i == 1 { assert(seq![0x61u8, 0x69u8, 0x66u8][0] != "oga".spec_bytes()[0]); }
            if i == 2 { assert(seq![0x61u8, 0x69u8, 0x66u8].len() != "opus".spec_bytes().len()); }
        }
    }
    assert(seq![0x61u8, 0x69u8, 0x66u8][1] != "amr".spec_bytes()[1]);
    assert(seq!["aif", "aiff"][0].spec_bytes() == seq![0x61u8, 0x69u8, 0x66u8]);
}

proof fn lemma_extension_mime_aiff()
    ensures
        extension_mime(seq![0x61u8, 0x69u8, 0x66u8, 0x66u8]) == Some("audio/aiff"@),
{
    lemma_bytes_of_png();
    lemma_bytes_of_apng();
    lemma_bytes_of_jpg();
    lemma_bytes_of_jpeg();
    lemma_bytes_of_bmp();
    lemma_bytes_of_tif();
    lemma_bytes_of_tiff();
    lemma_bytes_of_webp();
    lemma_bytes_of_gif();
    lemma_bytes_of_mp4();
    lemma_bytes_of_m4a();
    lemma_bytes_of_mov();
    lemma_bytes_of_avi();
    lemma_bytes_of_mkv();
    lemma_bytes_of_webm();
    lemma_bytes_of_mp3();
    lemma_bytes_of_wav();
    lemma_bytes_of_flac();
    lemma_bytes_of_aac();
    lemma_bytes_of_ogg();
    lemma_bytes_of_oga();
    lemma_bytes_of_opus();
    lemma_bytes_of_amr();
    lemma_bytes_of_aiff();
    assert(!is_one_of(seq![0x61u8, 0x69u8, 0x66u8, 0x66u8], seq!["png", "apng"])) by {
        let names: Seq<&str> = seq!["png", "apng"];
        assert forall|i: int| 0 <= i < names.len() implies names[i].spec_bytes() != seq![0x61u8, 0x69u8, 0x66u8, 0x66u8] by {
            if i == 0 { assert(seq![0x61u8, 0x69u8, 0x66u8, 0x66u8].len() != "png".spec_bytes().len()); }
            if i == 1 { assert(seq![0x61u8, 0x69u8, 0x66u8, 0x66u8][1] != "apng".spec_bytes()[1]); }
        }
    }
    assert(!is_one_of(seq![0x61u8, 0x69u8, 0x66u8, 0x66u8], seq!["jpg", "jpeg"])) by {
        let names: Seq<&str> = seq!["jpg", "jpeg"];
        assert forall|i: int| 0 <= i < names.len() implies names[i].spec_bytes() != seq![0x61u8, 0x69u8, 0x66u8, 0x66u8] by {
            if i == 0 { assert(seq![0x61u8, 0x69u8, 0x66u8, 0x66u8].len() != "jpg".spec_bytes().len()); }
            if i == 1 { assert(seq![0x61u8, 0x69u8, 0x66u8, 0x66u8][0] != "jpeg".spec_bytes()[0]); }
        }
    }
    assert(seq![0x61u8, 0x69u8, 0x66u8, 0x66u8].len() != "bmp".spec_bytes().len());
    assert(!is_one_of(seq![0x61u8, 0x69u8, 0x66u8, 0x66u8], seq!["tif", "tiff"])) by {
        let names: Seq<&str> = seq!["tif", "tiff"];
        assert forall|i: int| 0 <= i < names.len() implies names[i].spec_bytes() != seq![0x61u8, 0x69u8, 0x66u8, 0x66u8] by {
            if i == 0 { assert(seq![0x61u8, 0x69u8, 0x66u8, 0x66u8].len() != "tif".spec_bytes().len()); }
            if i == 1 { assert(seq![0x61u8, 0x69u8, 0x66u8, 0x66u8][0] != "tiff".spec_bytes()[0]); }
        }
    }
    assert(seq![0x61u8, 0x69u8, 0x66u8, 0x66u8][0] != "webp".spec_bytes()[0]);
    assert(seq![0x61u8, 0x69u8, 0x66u8, 0x66u8].len() != "gif".spec_bytes().len());
    assert(!is_one_of(seq![0x61u8, 0x69u8, 0x66u8, 0x66u8], seq!["mp4", "m4a"])) by {
        let names: Seq<&str> = seq!["mp4", "m4a"];
        assert forall|i: int| 0 <= i < names.len() implies names[i].spec_bytes() != seq![0x61u8, 0x69u8, 0x66u8, 0x66u8] by {
            if i == 0 { assert(seq![0x61u8, 0x69u8, 0x66u8, 0x66u8].len() != "mp4".spec_bytes().len()); }
            if i == 1 { assert(seq![0x61u8, 0x69u8, 0x66u8, 0x66u8].len() != "m4a".spec_bytes().len()); }
        }
    }
    assert(seq![0x61u8, 0x69u8, 0x66u8, 0x66u8].len() != "mov".spec_bytes().len());
    assert(seq![0x61u8, 0x69u8, 0x66u8, 0x66u8].len() != "avi".spec_bytes().len());
    assert(seq![0x61u8, 0x69u8, 0x66u8, 0x66u8].len() != "mkv".spec_bytes().len());
    assert(seq![0x61u8, 0x69u8, 0x66u8, 0x66u8][0] != "webm".spec_bytes()[0]);
    assert(seq![0x61u8, 0x69u8, 0x66u8, 0x66u8].len() != "mp3".spec_bytes().len());
    assert(seq![0x61u8, 0x69u8, 0x66u8, 0x66u8].len() != "wav".spec_bytes().len());
    assert(seq![0x61u8, 0x69u8, 0x66u8, 0x66u8][0] != "flac".spec_bytes()[0]);
    assert(seq![0x61u8, 0x69u8, 0x66u8, 0x66u8].len() != "aac".spec_bytes().len());
    assert(!is_one_of(seq![0x61u8, 0x69u8, 0x66u8, 0x66u8], seq!["ogg", "oga", "opus"])) by {
        let names: Seq<&str> = seq!["ogg", "oga", "opus"];
        assert forall|i: int| 0 <= i < names.len() implies names[i].spec_bytes() != seq![0x61u8, 0x69u8, 0x66u8, 0x66u8] by {
            if i == 0 { assert(seq![0x61u8, 0x69u8, 0x66u8, 0x66u8].len() != "ogg".spec_bytes().len()); }
            if i == 1 { assert(seq![0x61u8, 0x69u8, 0x66u8, 0x66u8].len() != "oga".spec_bytes().len()); }
            if i == 2 { assert(seq![0x61u8, 0x69u8, 0x66u8, 0x66u8][0] != "opus".spec_bytes()[0]); }
        }
    }
    assert(seq![0x61u8, 0x69u8, 0x66u8, 0x66u8].len() != "amr".spec_bytes().len());
    assert(seq!["aif", "aiff"][1].spec_bytes() == seq![0x61u8, 0x69u8, 0x66u8, 0x66u8]);
}

proof fn lemma_extension_mime_pdf()
    ensures
        extension_mime(seq![0x70u8, 0x64u8, 0x66u8]) == Some("application/pdf"@),
{
    lemma_bytes_of_png();
    lemma_bytes_of_apng();
    lemma_bytes_of_jpg();
    lemma_bytes_of_jpeg();
    lemma_bytes_of_bmp();
    lemma_bytes_of_tif();
    lemma_bytes_of_tiff();
    lemma_bytes_of_webp();
    lemma_bytes_of_gif();
    lemma_bytes_of_mp4();
    lemma_bytes_of_m4a();
    lemma_bytes_of_mov();
    lemma_bytes_of_avi();
    lemma_bytes_of_mkv();
    lemma_bytes_of_webm();
    lemma_bytes_of_mp3();
    lemma_bytes_of_wav();
    lemma_bytes_of_flac();
    lemma_bytes_of_aac();
    lemma_bytes_of_ogg();
    lemma_bytes_of_oga();
    lemma_bytes_of_opus();
    lemma_bytes_of_amr();
    lemma_bytes_of_aif();
    lemma_bytes_of_aiff();
    lemma_bytes_of_pdf();
    assert(!is_one_of(seq![0x70u8, 0x64u8, 0x66u8], seq!["png", "apng"])) by {
        let names: Seq<&str> = seq!["png", "apng"];
        assert forall|i: int| 0 <= i < names.len() implies names[i].spec_bytes() != seq![0x70u8, 0x64u8, 0x66u8] by {
            if i == 0 { assert(seq![0x70u8, 0x64u8, 0x66u8][1] != "png".spec_bytes()[1]); }
            if i == 1 { assert(seq![0x70u8, 0x64u8, 0x66u8].len() != "apng".spec_bytes().len()); }
        }
    }
    assert(!is_one_of(seq![0x70u8, 0x64u8, 0x66u8], seq!["jpg", "jpeg"])) by {
        let names: Seq<&str> = seq!["jpg", "jpeg"];
        assert forall|i: int| 0 <= i < names.len() implies names[i].spec_bytes() != seq![0x70u8, 0x64u8, 0x66u8] by {
            if i == 0 { assert(seq![0x70u8, 0x64u8, 0x66u8][0] != "jpg".spec_bytes()[0]); }
            if i == 1 { assert(seq![0x70u8, 0x64u8, 0x66u8].len() != "jpeg".spec_bytes().len()); }
        }
    }
    assert(seq![0x70u8, 0x64u8, 0x66u8][0] != "bmp".spec_bytes()[0]);
    assert(!is_one_of(seq![0x70u8, 0x64u8, 0x66u8], seq!["tif", "tiff"])) by {
        let names: Seq<&str> = seq!["tif", "tiff"];
        assert forall|i: int| 0 <= i < names.len() implies names[i].spec_bytes() != seq![0x70u8, 0x64u8, 0x66u8] by {
            if i == 0 { assert(seq![0x70u8, 0x64u8, 0x66u8][0] != "tif".spec_bytes()[0]); }
            if i == 1 { assert(seq![0x70u8, 0x64u8, 0x66u8].len() != "tiff".spec_bytes().len()); }
        }
    }
    assert(seq![0x70u8, 0x64u8, 0x66u8].len() != "webp".spec_bytes().len());
    assert(seq![0x70u8, 0x64u8, 0x66u8][0] != "gif".spec_bytes()[0]);
    assert(!is_one_of(seq![0x70u8, 0x64u8, 0x66u8], seq!["mp4", "m4a"])) by {
        let names: Seq<&str> = seq!["mp4", "m4a"];
        assert forall|i: int| 0 <= i < names.len() implies names[i].spec_bytes() != seq![0x70u8, 0x64u8, 0x66u8] by {
            if i == 0 { assert(seq![0x70u8, 0x64u8, 0x66u8][0] != "mp4".spec_bytes()[0]); }
            if i == 1 { assert(seq![0x70u8, 0x64u8, 0x66u8][0] != "m4a".spec_bytes()[0]); }
        }
    }
    assert(seq![0x70u8, 0x64u8, 0x66u8][0] != "mov".spec_bytes()[0]);
    assert(seq![0x70u8, 0x64u8, 0x66u8][0] != "avi".spec_bytes()[0]);
    assert(seq![0x70u8, 0x64u8, 0x66u8][0] != "mkv".spec_bytes()[0]);
    assert(seq![0x70u8, 0x64u8, 0x66u8].len() != "webm".spec_bytes().len());
    assert(seq![0x70u8, 0x64u8, 0x66u8][0] != "mp3".spec_bytes()[0]);
    assert(seq![0x70u8, 0x64u8, 0x66u8][0] != "wav".spec_bytes()[0]);
    assert(seq![0x70u8, 0x64u8, 0x66u8].len() != "flac".spec_bytes().len());
    assert(seq![0x70u8, 0x64u8, 0x66u8][0] != "aac".spec_bytes()[0]);
    assert(!is_one_of(seq![0x70u8, 0x64u8, 0x66u8], seq!["ogg", "oga", "opus"])) by {
        let names: Seq<&str> = seq!["ogg", "oga", "opus"];
        assert forall|i: int| 0 <= i < names.len() implies names[i].spec_bytes() != seq![0x70u8, 0x64u8, 0x66u8] by {
            if i == 0 { assert(seq![0x70u8, 0x64u8, 0x66u8][0] != "ogg".spec_bytes()[0]); }
            if i == 1 { assert(seq![0x70u8, 0x64u8, 0x66u8][0] != "oga".spec_bytes()[0]); }
            if i == 2 { assert(seq![0x70u8, 0x64u8, 0x66u8].len() != "opus".spec_bytes().len()); }
        }
    }
    assert(seq![0x70u8, 0x64u8, 0x66u8][0] != "amr".spec_bytes()[0]);
    assert(!is_one_of(seq![0x70u8, 0x64u8, 0x66u8], seq!["aif", "aiff"])) by {
        let names: Seq<&str> = seq!["aif", "aiff"];
        assert forall|i: int| 0 <= i < names.len() implies names[i].spec_bytes() != seq![0x70u8, 0x64u8, 0x66u8] by {
            if i == 0 { assert(seq![0x70u8, 0x64u8, 0x66u8][0] != "aif".spec_bytes()[0]); }
            if i == 1 { assert(seq![0x70u8, 0x64u8, 0x66u8].len() != "aiff".spec_bytes().len()); }
        }
    }
}

proof fn lemma_extension_mime_zip()
    ensures
        extension_mime(seq![0x7Au8, 0x69u8, 0x70u8]) == Some("application/zip"@),
{
    lemma_bytes_of_png();
    lemma_bytes_of_apng();
    lemma_bytes_of_jpg();
    lemma_bytes_of_jpeg();
    lemma_bytes_of_bmp();
    lemma_bytes_of_tif();
    lemma_bytes_of_tiff();
    lemma_bytes_of_webp();
    lemma_bytes_of_gif();
    lemma_bytes_of_mp4();
    lemma_bytes_of_m4a();
    lemma_bytes_of_mov();
    lemma_bytes_of_avi();
    lemma_bytes_of_mkv();
    lemma_bytes_of_webm();
    lemma_bytes_of_mp3();
    lemma_bytes_of_wav();
    lemma_bytes_of_flac();
    lemma_bytes_of_aac();
    lemma_bytes_of_ogg();
    lemma_bytes_of_oga();
    lemma_bytes_of_opus();
    lemma_bytes_of_amr();
    lemma_bytes_of_aif();
    lemma_bytes_of_aiff();
    lemma_bytes_of_pdf();
    lemma_bytes_of_zip();
    assert(!is_one_of(seq![0x7Au8, 0x69u8, 0x70u8], seq!["png", "apng"])) by {
        let names: Seq<&str> = seq!["png", "apng"];
        assert forall|i: int| 0 <= i < names.len() implies names[i].spec_bytes() != seq![0x7Au8, 0x69u8, 0x70u8] by {
            if i == 0 { assert(seq![0x7Au8, 0x69u8, 0x70u8][0] != "png".spec_bytes()[0]); }
            if i == 1 { assert(seq![0x7Au8, 0x69u8, 0x70u8].len() != "apng".spec_bytes().len()); }
        }
    }
    assert(!is_one_of(seq![0x7Au8, 0x69u8, 0x70u8], seq!["jpg", "jpeg"])) by {
        let names: Seq<&str> = seq!["jpg", "jpeg"];
        assert forall|i: int| 0 <= i < names.len() implies names[i].spec_bytes() != seq![0x7Au8, 0x69u8, 0x70u8] by {
            if i == 0 { assert(seq![0x7Au8, 0x69u8, 0x70u8][0] != "jpg".spec_bytes()[0]); }
            if i == 1 { assert(seq![0x7Au8, 0x69u8, 0x70u8].len() != "jpeg".spec_bytes().len()); }
        }
    }
    assert(seq![0x7Au8, 0x69u8, 0x70u8][0] != "bmp".spec_bytes()[0]);
    assert(!is_one_of(seq![0x7Au8, 0x69u8, 0x70u8], seq!["tif", "tiff"])) by {
        let names: Seq<&str> = seq!["tif", "tiff"];
        assert forall|i: int| 0 <= i < names.len() implies names[i].spec_bytes() != seq![0x7Au8, 0x69u8, 0x70u8] by {
            if i == 0 { assert(seq![0x7Au8, 0x69u8, 0x70u8][0] != "tif".spec_bytes()[0]); }
            if i == 1 { assert(seq![0x7Au8, 0x69u8, 0x70u8].len() != "tiff".spec_bytes().len()); }
        }
    }
    assert(seq![0x7Au8, 0x69u8, 0x70u8].len() != "webp".spec_bytes().len());
    assert(seq![0x7Au8, 0x69u8, 0x70u8][0] != "gif".spec_bytes()[0]);
    assert(!is_one_of(seq![0x7Au8, 0x69u8, 0x70u8], seq!["mp4", "m4a"])) by {
        let names: Seq<&str> = seq!["mp4", "m4a"];
        assert forall|i: int| 0 <= i < names.len() implies names[i].spec_bytes() != seq![0x7Au8, 0x69u8, 0x70u8] by {
            if i == 0 { assert(seq![0x7Au8, 0x69u8, 0x70u8][0] != "mp4".spec_bytes()[0]); }
            if i == 1 { assert(seq![0x7Au8, 0x69u8, 0x70u8][0] != "m4a".spec_bytes()[0]); }
        }
    }
    assert(seq![0x7Au8, 0x69u8, 0x70u8][0] != "mov".spec_bytes()[0]);
    assert(seq![0x7Au8, 0x69u8, 0x70u8][0] != "avi".spec_bytes()[0]);
    assert(seq![0x7Au8, 0x69u8, 0x70u8][0] != "mkv".spec_bytes()[0]);
    assert(seq![0x7Au8, 0x69u8, 0x70u8].len() != "webm".spec_bytes().len());
    assert(seq![0x7Au8, 0x69u8, 0x70u8][0] != "mp3".spec_bytes()[0]);
    assert(seq![0x7Au8, 0x69u8, 0x70u8][0] != "wav".spec_bytes()[0]);
    assert(seq![0x7Au8, 0x69u8, 0x70u8].len() != "flac".spec_bytes().len());
    assert(seq![0x7Au8, 0x69u8, 0x70u8][0] != "aac".spec_bytes()[0]);
    assert(!is_one_of(seq![0x7Au8, 0x69u8, 0x70u8], seq!["ogg", "oga", "opus"])) by {
        let names: Seq<&str> = seq!["ogg", "oga", "opus"];
        assert forall|i: int| 0 <= i < names.len() implies names[i].spec_bytes() != seq![0x7Au8, 0x69u8, 0x70u8] by {
            if i == 0 { assert(seq![0x7Au8, 0x69u8, 0x70u8][0] != "ogg".spec_bytes()[0]); }
            if i == 1 { assert(seq![0x7Au8, 0x69u8, 0x70u8][0] != "oga".spec_bytes()[0]); }
            if i == 2 { assert(seq![0x7Au8, 0x69u8, 0x70u8].len() != "opus".spec_bytes().len()); }
        }
    }
    assert(seq![0x7Au8, 0x69u8, 0x70u8][0] != "amr".spec_bytes()[0]);
    assert(!is_one_of(seq![0x7Au8, 0x69u8, 0x70u8], seq!["aif", "aiff"])) by {
        let names: Seq<&str> = seq!["aif", "aiff"];
        assert forall|i: int| 0 <= i < names.len() implies names[i].spec_bytes() != seq![0x7Au8, 0x69u8, 0x70u8] by {
            if i == 0 { assert(seq![0x7Au8, 0x69u8, 0x70u8][0] != "aif".spec_bytes()[0]); }
            if i == 1 { assert(seq![0x7Au8, 0x69u8, 0x70u8].len() != "aiff".spec_bytes().len()); }
        }
    }
    assert(seq![0x7Au8, 0x69u8, 0x70u8][0] != "pdf".spec_bytes()[0]);
}

proof fn lemma_extension_mime_x7z()
    ensures
        extension_mime(seq![0x37u8, 0x7Au8]) == Some("application/x-7z-compressed"@),
{
    lemma_bytes_of_png();
    lemma_bytes_of_apng();
    lemma_bytes_of_jpg();
    lemma_bytes_of_jpeg();
    lemma_bytes_of_bmp();
    lemma_bytes_of_tif();
    lemma_bytes_of_tiff();
    lemma_bytes_of_webp();
    lemma_bytes_of_gif();
    lemma_bytes_of_mp4();
    lemma_bytes_of_m4a();
    lemma_bytes_of_mov();
    lemma_bytes_of_avi();
    lemma_bytes_of_mkv();
    lemma_bytes_of_webm();
    lemma_bytes_of_mp3();
    lemma_bytes_of_wav();
    lemma_bytes_of_flac();
    lemma_bytes_of_aac();
    lemma_bytes_of_ogg();
    lemma_bytes_of_oga();
    lemma_bytes_of_opus();
    lemma_bytes_of_amr();
    lemma_bytes_of_aif();
    lemma_bytes_of_aiff();
    lemma_bytes_of_pdf();
    lemma_bytes_of_zip();
    lemma_bytes_of_x7z();
    assert(!is_one_of(seq![0x37u8, 0x7Au8], seq!["png", "apng"])) by {
        let names: Seq<&str> = seq!["png", "apng"];
        assert forall|i: int| 0 <= i < names.len() implies names[i].spec_bytes() != seq![0x37u8, 0x7Au8] by {
            if i == 0 { assert(seq![0x37u8, 0x7Au8].len() != "png".spec_bytes().len()); }
            if i == 1 { assert(seq![0x37u8, 0x7Au8].len() != "apng".spec_bytes().len()); }
        }
    }
    assert(!is_one_of(seq![0x37u8, 0x7Au8], seq!["jpg", "jpeg"])) by {
        let names: Seq<&str> = seq!["jpg", "jpeg"];
        assert forall|i: int| 0 <= i < names.len() implies names[i].spec_bytes() != seq![0x37u8, 0x7Au8] by {
            if i == 0 { assert(seq![0x37u8, 0x7Au8].len() != "jpg".spec_bytes().len()); }
            if i == 1 { assert(seq![0x37u8, 0x7Au8].len() != "jpeg".spec_bytes().len()); }
        }
    }
    assert(seq![0x37u8, 0x7Au8].len() != "bmp".spec_bytes().len());
    assert(!is_one_of(seq![0x37u8, 0x7Au8], seq!["tif", "tiff"])) by {
        let names: Seq<&str> = seq!["tif", "tiff"];
        assert forall|i: int| 0 <= i < names.len() implies names[i].spec_bytes() != seq![0x37u8, 0x7Au8] by {
            if i == 0 { assert(seq![0x37u8, 0x7Au8].len() != "tif".spec_bytes().len()); }
            if i == 1 { assert(seq![0x37u8, 0x7Au8].len() != "tiff".spec_bytes().len()); }
        }
    }
    assert(seq![0x37u8, 0x7Au8].len() != "webp".spec_bytes().len());
    assert(seq![0x37u8, 0x7Au8].len() != "gif".spec_bytes().len());
    assert(!is_one_of(seq![0x37u8, 0x7Au8], seq!["mp4", "m4a"])) by {
        let names: Seq<&str> = seq!["mp4", "m4a"];
        assert forall|i: int| 0 <= i < names.len() implies names[i].spec_bytes() != seq![0x37u8, 0x7Au8] by {
            if i == 0 { assert(seq![0x37u8, 0x7Au8].len() != "mp4".spec_bytes().len()); }
            if i == 1 { assert(seq![0x37u8, 0x7Au8].len() != "m4a".spec_bytes().len()); }
        }
    }
    assert(seq![0x37u8, 0x7Au8].len() != "mov".spec_bytes().len());
    assert(seq![0x37u8, 0x7Au8].len() != "avi".spec_bytes().len());
    assert(seq![0x37u8, 0x7Au8].len() != "mkv".spec_bytes().len());
    assert(seq![0x37u8, 0x7Au8].len() != "webm".spec_bytes().len());
    assert(seq![0x37u8, 0x7Au8].len() != "mp3".spec_bytes().len());
    assert(seq![0x37u8, 0x7Au8].len() != "wav".spec_bytes().len());
    assert(seq![0x37u8, 0x7Au8].len() != "flac".spec_bytes().len());
    assert(seq![0x37u8, 0x7Au8].len() != "aac".spec_bytes().len());
    assert(!is_one_of(seq![0x37u8, 0x7Au8], seq!["ogg", "oga", "opus"])) by {
        let names: Seq<&str> = seq!["ogg", "oga", "opus"];
        assert forall|i: int| 0 <= i < names.len() implies names[i].spec_bytes() != seq![0x37u8, 0x7Au8] by {
            if i == 0 { assert(seq![0x37u8, 0x7Au8].len() != "ogg".spec_bytes().len()); }
            if i == 1 { assert(seq![0x37u8, 0x7Au8].len() != "oga".spec_bytes().len()); }
            if i == 2 { assert(seq![0x37u8, 0x7Au8].len() != "opus".spec_bytes().len()); }
        }
    }
    assert(seq![0x37u8, 0x7Au8].len() != "amr".spec_bytes().len());
    assert(!is_one_of(seq![0x37u8, 0x7Au8], seq!["aif", "aiff"])) by {
        let names: Seq<&str> = seq!["aif", "aiff"];
        assert forall|i: int| 0 <= i < names.len() implies names[i].spec_bytes() != seq![0x37u8, 0x7Au8] by {
            if i == 0 { assert(seq![0x37u8, 0x7Au8].len() != "aif".spec_bytes().len()); }
            if i == 1 { assert(seq![0x37u8, 0x7Au8].len() != "aiff".spec_bytes().len()); }
        }
    }
    assert(seq![0x37u8, 0x7Au8].len() != "pdf".spec_bytes().len());
    assert(seq![0x37u8, 0x7Au8].len() != "zip".spec_bytes().len());
}

proof fn lemma_extension_mime_txt()
    ensures
        extension_mime(seq![0x74u8, 0x78u8, 0x74u8]) == Some("text/plain"@),
{
    lemma_bytes_of_png();
    lemma_bytes_of_apng();
    lemma_bytes_of_jpg();
    lemma_bytes_of_jpeg();
    lemma_bytes_of_bmp();
    lemma_bytes_of_tif();
    lemma_bytes_of_tiff();
    lemma_bytes_of_webp();
    lemma_bytes_of_gif();
    lemma_bytes_of_mp4();
    lemma_bytes_of_m4a();
    lemma_bytes_of_mov();
    lemma_bytes_of_avi();
    lemma_bytes_of_mkv();
    lemma_bytes_of_webm();
    lemma_bytes_of_mp3();
    lemma_bytes_of_wav();
    lemma_bytes_of_flac();
    lemma_bytes_of_aac();
    lemma_bytes_of_ogg();
    lemma_bytes_of_oga();
    lemma_bytes_of_opus();
    lemma_bytes_of_amr();
    lemma_bytes_of_aif();
    lemma_bytes_of_aiff();
    lemma_bytes_of_pdf();
    lemma_bytes_of_zip();
    lemma_bytes_of_x7z();
    lemma_bytes_of_txt();
    assert(!is_one_of(seq![0x74u8, 0x78u8, 0x74u8], seq!["png", "apng"])) by {
        let names: Seq<&str> = seq!["png", "apng"];
        assert forall|i: int| 0 <= i < names.len() implies names[i].spec_bytes() != seq![0x74u8, 0x78u8, 0x74u8] by {
            if i == 0 { assert(seq![0x74u8, 0x78u8, 0x74u8][0] != "png".spec_bytes()[0]); }
            if i == 1 { assert(seq![0x74u8, 0x78u8, 0x74u8].len() != "apng".spec_bytes().len()); }
        }
    }
    assert(!is_one_of(seq![0x74u8, 0x78u8, 0x74u8], seq!["jpg", "jpeg"])) by {
        let names: Seq<&str> = seq!["jpg", "jpeg"];
        assert forall|i: int| 0 <= i < names.len() implies names[i].spec_bytes() != seq![0x74u8, 0x78u8, 0x74u8] by {
            if i == 0 { assert(seq![0x74u8, 0x78u8, 0x74u8][0] != "jpg".spec_bytes()[0]); }
            if i == 1 { assert(seq![0x74u8, 0x78u8, 0x74u8].len() != "jpeg".spec_bytes().len()); }
        }
    }
    assert(seq![0x74u8, 0x78u8, 0x74u8][0] != "bmp".spec_bytes()[0]);
    assert(!is_one_of(seq![0x74u8, 0x78u8, 0x74u8], seq!["tif", "tiff"])) by {
        let names: Seq<&str> = seq!["tif", "tiff"];
        assert forall|i: int| 0 <= i < names.len() implies names[i].spec_bytes() != seq![0x74u8, 0x78u8, 0x74u8] by {
            if i == 0 { assert(seq![0x74u8, 0x78u8, 0x74u8][1] != "tif".spec_bytes()[1]); }
            if i == 1 { assert(seq![0x74u8, 0x78u8, 0x74u8].len() != "tiff".spec_bytes().len()); }
        }
    }
    assert(seq![0x74u8, 0x78u8, 0x74u8].len() != "webp".spec_bytes().len());
    assert(seq![0x74u8, 0x78u8, 0x74u8][0] != "gif".spec_bytes()[0]);
    assert(!is_one_of(seq![0x74u8, 0x78u8, 0x74u8], seq!["mp4", "m4a"])) by {
        let names: Seq<&str> = seq!["mp4", "m4a"];
        assert forall|i: int| 0 <= i < names.len() implies names[i].spec_bytes() != seq![0x74u8, 0x78u8, 0x74u8] by {
            if i == 0 { assert(seq![0x74u8, 0x78u8, 0x74u8][0] != "mp4".spec_bytes()[0]); }
            if i == 1 { assert(seq![0x74u8, 0x78u8, 0x74u8][0] != "m4a".spec_bytes()[0]); }
        }
    }
    assert(seq![0x74u8, 0x78u8, 0x74u8][0] != "mov".spec_bytes()[0]);
    assert(seq![0x74u8, 0x78u8, 0x74u8][0] != "avi".spec_bytes()[0]);
    assert(seq![0x74u8, 0x78u8, 0x74u8][0] != "mkv".spec_bytes()[0]);
    assert(seq![0x74u8, 0x78u8, 0x74u8].len() != "webm".spec_bytes().len());
    assert(seq![0x74u8, 0x78u8, 0x74u8][0] != "mp3".spec_bytes()[0]);
    assert(seq![0x74u8, 0x78u8, 0x74u8][0] != "wav".spec_bytes()[0]);
    assert(seq![0x74u8, 0x78u8, 0x74u8].len() != "flac".spec_bytes().len());
    assert(seq![0x74u8, 0x78u8, 0x74u8][0] != "aac".spec_bytes()[0]);
    assert(!is_one_of(seq![0x74u8, 0x78u8, 0x74u8], seq!["ogg", "oga", "opus"])) by {
        let names: Seq<&str> = seq!["ogg", "oga", "opus"];
        assert forall|i: int| 0 <= i < names.len() implies names[i].spec_bytes() != seq![0x74u8, 0x78u8, 0x74u8] by {
            if i == 0 { assert(seq![0x74u8, 0x78u8, 0x74u8][0] != "ogg".spec_bytes()[0]); }
            if i == 1 { assert(seq![0x74u8, 0x78u8, 0x74u8][0] != "oga".spec_bytes()[0]); }
            if i == 2 { assert(seq![0x74u8, 0x78u8, 0x74u8].len() != "opus".spec_bytes().len()); }
        }
    }
    assert(seq![0x74u8, 0x78u8, 0x74u8][0] != "amr".spec_bytes()[0]);
    assert(!is_one_of(seq![0x74u8, 0x78u8, 0x74u8], seq!["aif", "aiff"])) by {
        let names: Seq<&str> = seq!["aif", "aiff"];
        assert forall|i: int| 0 <= i < names.len() implies names[i].spec_bytes() != seq![0x74u8, 0x78u8, 0x74u8] by {
            if i == 0 { assert(seq![0x74u8, 0x78u8, 0x74u8][0] != "aif".spec_bytes()[0]); }
            if i == 1 { assert(seq![0x74u8, 0x78u8, 0x74u8].len() != "aiff".spec_bytes().len()); }
        }
    }
    assert(seq![0x74u8, 0x78u8, 0x74u8][0] != "pdf".spec_bytes()[0]);
    assert(seq![0x74u8, 0x78u8, 0x74u8][0] != "zip".spec_bytes()[0]);
    assert(seq![0x74u8, 0x78u8, 0x74u8].len() != "7z".spec_bytes().len());
    assert(seq!["txt", "csv"][0].spec_bytes() == seq![0x74u8, 0x78u8, 0x74u8]);
}

proof fn lemma_extension_mime_csv()
    ensures
        extension_mime(seq![0x63u8, 0x73u8, 0x76u8]) == Some("text/plain"@),
{
    lemma_bytes_of_png();
    lemma_bytes_of_apng();
    lemma_bytes_of_jpg();
    lemma_bytes_of_jpeg();
    lemma_bytes_of_bmp();
    lemma_bytes_of_tif();
    lemma_bytes_of_tiff();
    lemma_bytes_of_webp();
    lemma_bytes_of_gif();
    lemma_bytes_of_mp4();
    lemma_bytes_of_m4a();
    lemma_bytes_of_mov();
    lemma_bytes_of_avi();
    lemma_bytes_of_mkv();
    lemma_bytes_of_webm();
    lemma_bytes_of_mp3();
    lemma_bytes_of_wav();
    lemma_bytes_of_flac();
    lemma_bytes_of_aac();
    lemma_bytes_of_ogg();
    lemma_bytes_of_oga();
    lemma_bytes_of_opus();
    lemma_bytes_of_amr();
    lemma_bytes_of_aif();
    lemma_bytes_of_aiff();
    lemma_bytes_of_pdf();
    lemma_bytes_of_zip();
    lemma_bytes_of_x7z();
    lemma_bytes_of_csv();
    assert(!is_one_of(seq![0x63u8, 0x73u8, 0x76u8], seq!["png", "apng"])) by {
        let names: Seq<&str> = seq!["png", "apng"];
        assert forall|i: int| 0 <= i < names.len() implies names[i].spec_bytes() != seq![0x63u8, 0x73u8, 0x76u8] by {
            if i == 0 { assert(seq![0x63u8, 0x73u8, 0x76u8][0] != "png".spec_bytes()[0]); }
            if i == 1 { assert(seq![0x63u8, 0x73u8, 0x76u8].len() != "apng".spec_bytes().len()); }
        }
    }
    assert(!is_one_of(seq![0x63u8, 0x73u8, 0x76u8], seq!["jpg", "jpeg"])) by {
        let names: Seq<&str> = seq!["jpg", "jpeg"];
        assert forall|i: int| 0 <= i < names.len() implies names[i].spec_bytes() != seq![0x63u8, 0x73u8, 0x76u8] by {
            if i == 0 { assert(seq![0x63u8, 0x73u8, 0x76u8][0] != "jpg".spec_bytes()[0]); }
            if i == 1 { assert(seq![0x63u8, 0x73u8, 0x76u8].len() != "jpeg".spec_bytes().len()); }
        }
    }
    assert(seq![0x63u8, 0x73u8, 0x76u8][0] != "bmp".spec_bytes()[0]);
    assert(!is_one_of(seq![0x63u8, 0x73u8, 0x76u8], seq!["tif", "tiff"])) by {
        let names: Seq<&str> = seq!["tif", "tiff"];
        assert forall|i: int| 0 <= i < names.len() implies names[i].spec_bytes() != seq![0x63u8, 0x73u8, 0x76u8] by {
            if i == 0 { assert(seq![0x63u8, 0x73u8, 0x76u8][0] != "tif".spec_bytes()[0]); }
            if i == 1 { assert(seq![0x63u8, 0x73u8, 0x76u8].len() != "tiff".spec_bytes().len()); }
        }
    }
    assert(seq![0x63u8, 0x73u8, 0x76u8].len() != "webp".spec_bytes().len());
    assert(seq![0x63u8, 0x73u8, 0x76u8][0] != "gif".spec_bytes()[0]);
    assert(!is_one_of(seq![0x63u8, 0x73u8, 0x76u8], seq!["mp4", "m4a"])) by {
        let names: Seq<&str> = seq!["mp4", "m4a"];
        assert forall|i: int| 0 <= i < names.len() implies names[i].spec_bytes() != seq![0x63u8, 0x73u8, 0x76u8] by {
            if i == 0 { assert(seq![0x63u8, 0x73u8, 0x76u8][0] != "mp4".spec_bytes()[0]); }
            if i == 1 { assert(seq![0x63u8, 0x73u8, 0x76u8][0] != "m4a".spec_bytes()[0]); }
        }
    }
    assert(seq![0x63u8, 0x73u8, 0x76u8][0] != "mov".spec_bytes()[0]);
    assert(seq![0x63u8, 0x73u8, 0x76u8][0] != "avi".spec_bytes()[0]);
    assert(seq![0x63u8, 0x73u8, 0x76u8][0] != "mkv".spec_bytes()[0]);
    assert(seq![0x63u8, 0x73u8, 0x76u8].len() != "webm".spec_bytes().len());
    assert(seq![0x63u8, 0x73u8, 0x76u8][0] != "mp3".spec_bytes()[0]);
    assert(seq![0x63u8, 0x73u8, 0x76u8][0] != "wav".spec_bytes()[0]);
    assert(seq![0x63u8, 0x73u8, 0x76u8].len() != "flac".spec_bytes().len());
    assert(seq![0x63u8, 0x73u8, 0x76u8][0] != "aac".spec_bytes()[0]);
    assert(!is_one_of(seq![0x63u8, 0x73u8, 0x76u8], seq!["ogg", "oga", "opus"])) by {
        let names: Seq<&str> = seq!["ogg", "oga", "opus"];
        assert forall|i: int| 0 <= i < names.len() implies names[i].spec_bytes() != seq![0x63u8, 0x73u8, 0x76u8] by {
            if i == 0 { assert(seq![0x63u8, 0x73u8, 0x76u8][0] != "ogg".spec_bytes()[0]); }
            if i == 1 { assert(seq![0x63u8, 0x73u8, 0x76u8][0] != "oga".spec_bytes()[0]); }
            if i == 2 { assert(seq![0x63u8, 0x73u8, 0x76u8].len() != "opus".spec_bytes().len()); }
        }
    }
    assert(seq![0x63u8, 0x73u8, 0x76u8][0] != "amr".spec_bytes()[0]);
    assert(!is_one_of(seq![0x63u8, 0x73u8, 0x76u8], seq!["aif", "aiff"])) by {
        let names: Seq<&str> = seq!["aif", "aiff"];
        assert forall|i: int| 0 <= i < names.len() implies names[i].spec_bytes() != seq![0x63u8, 0x73u8, 0x76u8] by {
            if i == 0 { assert(seq![0x63u8, 0x73u8, 0x76u8][0] != "aif".spec_bytes()[0]); }
            if i == 1 { assert(seq![0x63u8, 0x73u8, 0x76u8].len() != "aiff".spec_bytes().len()); }
        }
    }
    assert(seq![0x63u8, 0x73u8, 0x76u8][0] != "pdf".spec_bytes()[0]);
    assert(seq![0x63u8, 0x73u8, 0x76u8][0] != "zip".spec_bytes()[0]);
    assert(seq![0x63u8, 0x73u8, 0x76u8].len() != "7z".spec_bytes().len());
    assert(seq!["txt", "csv"][1].spec_bytes() == seq![0x63u8, 0x73u8, 0x76u8]);
}

proof fn lemma_extension_mime_json()
    ensures
        extension_mime(seq![0x6Au8, 0x73u8, 0x6Fu8, 0x6Eu8]) == Some("application/json"@),
{
    lemma_bytes_of_png();
    lemma_bytes_of_apng();
    lemma_bytes_of_jpg();
    lemma_bytes_of_jpeg();
    lemma_bytes_of_bmp();
    lemma_bytes_of_tif();
    lemma_bytes_of_tiff();
    lemma_bytes_of_webp();
    lemma_bytes_of_gif();
    lemma_bytes_of_mp4();
    lemma_bytes_of_m4a();
    lemma_bytes_of_mov();
    lemma_bytes_of_avi();
    lemma_bytes_of_mkv();
    lemma_bytes_of_webm();
    lemma_bytes_of_mp3();
    lemma_bytes_of_wav();
    lemma_bytes_of_flac();
    lemma_bytes_of_aac();
    lemma_bytes_of_ogg();
    lemma_bytes_of_oga();
    lemma_bytes_of_opus();
    lemma_bytes_of_amr();
    lemma_bytes_of_aif();
    lemma_bytes_of_aiff();
    lemma_bytes_of_pdf();
    lemma_bytes_of_zip();
    lemma_bytes_of_x7z();
    lemma_bytes_of_txt();
    lemma_bytes_of_csv();
    lemma_bytes_of_json();
    assert(!is_one_of(seq![0x6Au8, 0x73u8, 0x6Fu8, 0x6Eu8], seq!["png", "apng"])) by {
        let names: Seq<&str> = seq!["png", "apng"];
        assert forall|i: int| 0 <= i < names.len() implies names[i].spec_bytes() != seq![0x6Au8, 0x73u8, 0x6Fu8, 0x6Eu8] by {
            if i == 0 { assert(seq![0x6Au8, 0x73u8, 0x6Fu8, 0x6Eu8].len() != "png".spec_bytes().len()); }
            if i == 1 { assert(seq![0x6Au8, 0x73u8, 0x6Fu8, 0x6Eu8][0] != "apng".spec_bytes()[0]); }
        }
    }
    assert(!is_one_of(seq![0x6Au8, 0x73u8, 0x6Fu8, 0x6Eu8], seq!["jpg", "jpeg"])) by {
        let names: Seq<&str> = seq!["jpg", "jpeg"];
        assert forall|i: int| 0 <= i < names.len() implies names[i].spec_bytes() != seq![0x6Au8, 0x73u8, 0x6Fu8, 0x6Eu8] by {
            if i == 0 { assert(seq![0x6Au8, 0x73u8, 0x6Fu8, 0x6Eu8].len() != "jpg".spec_bytes().len()); }
            if i == 1 { assert(seq![0x6Au8, 0x73u8, 0x6Fu8, 0x6Eu8][1] != "jpeg".spec_bytes()[1]); }
        }
    }
    assert(seq![0x6Au8, 0x73u8, 0x6Fu8, 0x6Eu8].len() != "bmp".spec_bytes().len());
    assert(!is_one_of(seq![0x6Au8, 0x73u8, 0x6Fu8, 0x6Eu8], seq!["tif", "tiff"])) by {
        let names: Seq<&str> = seq!["tif", "tiff"];
        assert forall|i: int| 0 <= i < names.len() implies names[i].spec_bytes() != seq![0x6Au8, 0x73u8, 0x6Fu8, 0x6Eu8] by {
            if i == 0 { assert(seq![0x6Au8, 0x73u8, 0x6Fu8, 0x6Eu8].len() != "tif".spec_bytes().len()); }
            if i == 1 { assert(seq![0x6Au8, 0x73u8, 0x6Fu8, 0x6Eu8][0] != "tiff".spec_bytes()[0]); }
        }
    }
    assert(seq![0x6Au8, 0x73u8, 0x6Fu8, 0x6Eu8][0] != "webp".spec_bytes()[0]);
    assert(seq![0x6Au8, 0x73u8, 0x6Fu8, 0x6Eu8].len() != "gif".spec_bytes().len());
    assert(!is_one_of(seq![0x6Au8, 0x73u8, 0x6Fu8, 0x6Eu8], seq!["mp4", "m4a"])) by {
        let names: Seq<&str> = seq!["mp4", "m4a"];
        assert forall|i: int| 0 <= i < names.len() implies names[i].spec_bytes() != seq![0x6Au8, 0x73u8, 0x6Fu8, 0x6Eu8] by {
            if i == 0 { assert(seq![0x6Au8, 0x73u8, 0x6Fu8, 0x6Eu8].len() != "mp4".spec_bytes().len()); }
            if i == 1 { assert(seq![0x6Au8, 0x73u8, 0x6Fu8, 0x6Eu8].len() != "m4a".spec_bytes().len()); }
        }
    }
    assert(seq![0x6Au8, 0x73u8, 0x6Fu8, 0x6Eu8].len() != "mov".spec_bytes().len());
    assert(seq![0x6Au8, 0x73u8, 0x6Fu8, 0x6Eu8].len() != "avi".spec_bytes().len());
    assert(seq![0x6Au8, 0x73u8, 0x6Fu8, 0x6Eu8].len() != "mkv".spec_bytes().len());
    assert(seq![0x6Au8, 0x73u8, 0x6Fu8, 0x6Eu8][0] != "webm".spec_bytes()[0]);
    assert(seq![0x6Au8, 0x73u8, 0x6Fu8, 0x6Eu8].len() != "mp3".spec_bytes().len());
    assert(seq![0x6Au8, 0x73u8, 0x6Fu8, 0x6Eu8].len() != "wav".spec_bytes().len());
    assert(seq![0x6Au8, 0x73u8, 0x6Fu8, 0x6Eu8][0] != "flac".spec_bytes()[0]);
    assert(seq![0x6Au8, 0x73u8, 0x6Fu8, 0x6Eu8].len() != "aac".spec_bytes().len());
    assert(!is_one_of(seq![0x6Au8, 0x73u8, 0x6Fu8, 0x6Eu8], seq!["ogg", "oga", "opus"])) by {
        let names: Seq<&str> = seq!["ogg", "oga", "opus"];
        assert forall|i: int| 0 <= i < names.len() implies names[i].spec_bytes() != seq![0x6Au8, 0x73u8, 0x6Fu8, 0x6Eu8] by {
            if i == 0 { assert(seq![0x6Au8, 0x73u8, 0x6Fu8, 0x6Eu8].len() != "ogg".spec_bytes().len()); }
            if i == 1 { assert(seq![0x6Au8, 0x73u8, 0x6Fu8, 0x6Eu8].len() != "oga".spec_bytes().len()); }
            if i == 2 { assert(seq![0x6Au8, 0x73u8, 0x6Fu8, 0x6Eu8][0] != "opus".spec_bytes()[0]); }
        }
    }
    assert(seq![0x6Au8, 0x73u8, 0x6Fu8, 0x6Eu8].len() != "amr".spec_bytes().len());
    assert(!is_one_of(seq![0x6Au8, 0x73u8, 0x6Fu8, 0x6Eu8], seq!["aif", "aiff"])) by {
        let names: Seq<&str> = seq!["aif", "aiff"];
        assert forall|i: int| 0 <= i < names.len() implies names[i].spec_bytes() != seq![0x6Au8, 0x73u8, 0x6Fu8, 0x6Eu8] by {
            if i == 0 { assert(seq![0x6Au8, 0x73u8, 0x6Fu8, 0x6Eu8].len() != "aif".spec_bytes().len()); }
            if i == 1 { assert(seq![0x6Au8, 0x73u8, 0x6Fu8, 0x6Eu8][0] != "aiff".spec_bytes()[0]); }
        }
    }
    assert(seq![0x6Au8, 0x73u8, 0x6Fu8, 0x6Eu8].len() != "pdf".spec_bytes().len());
    assert(seq![0x6Au8, 0x73u8, 0x6Fu8, 0x6Eu8].len() != "zip".spec_bytes().len());
    assert(seq![0x6Au8, 0x73u8, 0x6Fu8, 0x6Eu8].len() != "7z".spec_bytes().len());
    assert(!is_one_of(seq![0x6Au8, 0x73u8, 0x6Fu8, 0x6Eu8], seq!["txt", "csv"])) by {
        let names: Seq<&str> = seq!["txt", "csv"];
        assert forall|i: int| 0 <= i < names.len() implies names[i].spec_bytes() != seq![0x6Au8, 0x73u8, 0x6Fu8, 0x6Eu8] by {
            if i == 0 { assert(seq![0x6Au8, 0x73u8, 0x6Fu8, 0x6Eu8].len() != "txt".spec_bytes().len()); }
            if i == 1 { assert(seq![0x6Au8, 0x73u8, 0x6Fu8, 0x6Eu8].len() != "csv".spec_bytes().len()); }
        }
    }
}

proof fn lemma_extension_mime_xml()
    ensures
        extension_mime(seq![0x78u8, 0x6Du8, 0x6Cu8]) == Some("application/xml"@),
{
    lemma_bytes_of_png();
    lemma_bytes_of_apng();
    lemma_bytes_of_jpg();
    lemma_bytes_of_jpeg();
    lemma_bytes_of_bmp();
    lemma_bytes_of_tif();
    lemma_bytes_of_tiff();
    lemma_bytes_of_webp();
    lemma_bytes_of_gif();
    lemma_bytes_of_mp4();
    lemma_bytes_of_m4a();
    lemma_bytes_of_mov();
    lemma_bytes_of_avi();
    lemma_bytes_of_mkv();
    lemma_bytes_of_webm();
    lemma_bytes_of_mp3();
    lemma_bytes_of_wav();
    lemma_bytes_of_flac();
    lemma_bytes_of_aac();
    lemma_bytes_of_ogg();
    lemma_bytes_of_oga();
    lemma_bytes_of_opus();
    lemma_bytes_of_amr();
    lemma_bytes_of_aif();
    lemma_bytes_of_aiff();
    lemma_bytes_of_pdf();
    lemma_bytes_of_zip();
    lemma_bytes_of_x7z();
    lemma_bytes_of_txt();
    lemma_bytes_of_csv();
    lemma_bytes_of_json();
    lemma_bytes_of_xml();
    assert(!is_one_of(seq![0x78u8, 0x6Du8, 0x6Cu8], seq!["png", "apng"])) by {
        let names: Seq<&str> = seq!["png", "apng"];
        assert forall|i: int| 0 <= i < names.len() implies names[i].spec_bytes() != seq![0x78u8, 0x6Du8, 0x6Cu8] by {
            if i == 0 { assert(seq![0x78u8, 0x6Du8, 0x6Cu8][0] != "png".spec_bytes()[0]); }
            if i == 1 { assert(seq![0x78u8, 0x6Du8, 0x6Cu8].len() != "apng".spec_bytes().len()); }
        }
    }
    assert(!is_one_of(seq![0x78u8, 0x6Du8, 0x6Cu8], seq!["jpg", "jpeg"])) by {
        let names: Seq<&str> = seq!["jpg", "jpeg"];
        assert forall|i: int| 0 <= i < names.len() implies names[i].spec_bytes() != seq![0x78u8, 0x6Du8, 0x6Cu8] by {
            if i == 0 { assert(seq![0x78u8, 0x6Du8, 0x6Cu8][0] != "jpg".spec_bytes()[0]); }
            if i == 1 { assert(seq![0x78u8, 0x6Du8, 0x6Cu8].len() != "jpeg".spec_bytes().len()); }
        }
    }
    assert(seq![0x78u8, 0x6Du8, 0x6Cu8][0] != "bmp".spec_bytes()[0]);
    assert(!is_one_of(seq![0x78u8, 0x6Du8, 0x6Cu8], seq!["tif", "tiff"])) by {
        let names: Seq<&str> = seq!["tif", "tiff"];
        assert forall|i: int| 0 <= i < names.len() implies names[i].spec_bytes() != seq![0x78u8, 0x6Du8, 0x6Cu8] by {
            if i == 0 { assert(seq![0x78u8, 0x6Du8, 0x6Cu8][0] != "tif".spec_bytes()[0]); }
            if i == 1 { assert(seq![0x78u8, 0x6Du8, 0x6Cu8].len() != "tiff".spec_bytes().len()); }
        }
    }
    assert(seq![0x78u8, 0x6Du8, 0x6Cu8].len() != "webp".spec_bytes().len());
    assert(seq![0x78u8, 0x6Du8, 0x6Cu8][0] != "gif".spec_bytes()[0]);
    assert(!is_one_of(seq![0x78u8, 0x6Du8, 0x6Cu8], seq!["mp4", "m4a"])) by {
        let names: Seq<&str> = seq!["mp4", "m4a"];
        assert forall|i: int| 0 <= i < names.len() implies names[i].spec_bytes() != seq![0x78u8, 0x6Du8, 0x6Cu8] by {
            if i == 0 { assert(seq![0x78u8, 0x6Du8, 0x6Cu8][0] != "mp4".spec_bytes()[0]); }
            if i == 1 { assert(seq![0x78u8, 0x6Du8, 0x6Cu8][0] != "m4a".spec_bytes()[0]); }
        }
    }
    assert(seq![0x78u8, 0x6Du8, 0x6Cu8][0] != "mov".spec_bytes()[0]);
    assert(seq![0x78u8, 0x6Du8, 0x6Cu8][0] != "avi".spec_bytes()[0]);
    assert(seq![0x78u8, 0x6Du8, 0x6Cu8][0] != "mkv".spec_bytes()[0]);
    assert(seq![0x78u8, 0x6Du8, 0x6Cu8].len() != "webm".spec_bytes().len());
    assert(seq![0x78u8, 0x6Du8, 0x6Cu8][0] != "mp3".spec_bytes()[0]);
    assert(seq![0x78u8, 0x6Du8, 0x6Cu8][0] != "wav".spec_bytes()[0]);
    assert(seq![0x78u8, 0x6Du8, 0x6Cu8].len() != "flac".spec_bytes().len());
    assert(seq![0x78u8, 0x6Du8, 0x6Cu8][0] != "aac".spec_bytes()[0]);
    assert(!is_one_of(seq![0x78u8, 0x6Du8, 0x6Cu8], seq!["ogg", "oga", "opus"])) by {
        let names: Seq<&str> = seq!["ogg", "oga", "opus"];
        assert forall|i: int| 0 <= i < names.len() implies names[i].spec_bytes() != seq![0x78u8, 0x6Du8, 0x6Cu8] by {
            if i == 0 { assert(seq![0x78u8, 0x6Du8, 0x6Cu8][0] != "ogg".spec_bytes()[0]); }
            if i == 1 { assert(seq![0x78u8, 0x6Du8, 0x6Cu8][0] != "oga".spec_bytes()[0]); }
            if i == 2 { assert(seq![0x78u8, 0x6Du8, 0x6Cu8].len() != "opus".spec_bytes().len()); }
        }
    }
    assert(seq![0x78u8, 0x6Du8, 0x6Cu8][0] != "amr".spec_bytes()[0]);
    assert(!is_one_of(seq![0x78u8, 0x6Du8, 0x6Cu8], seq!["aif", "aiff"])) by {
        let names: Seq<&str> = seq!["aif", "aiff"];
        assert forall|i: int| 0 <= i < names.len() implies names[i].spec_bytes() != seq![0x78u8, 0x6Du8, 0x6Cu8] by {
            if i == 0 { assert(seq![0x78u8, 0x6Du8, 0x6Cu8][0] != "aif".spec_bytes()[0]); }
            if i == 1 { assert(seq![0x78u8, 0x6Du8, 0x6Cu8].len() != "aiff".spec_bytes().len()); }
        }
    }
    assert(seq![0x78u8, 0x6Du8, 0x6Cu8][0] != "pdf".spec_bytes()[0]);
    assert(seq![0x78u8, 0x6Du8, 0x6Cu8][0] != "zip".spec_bytes()[0]);
    assert(seq![0x78u8, 0x6Du8, 0x6Cu8].len() != "7z".spec_bytes().len());
    assert(!is_one_of(seq![0x78u8, 0x6Du8, 0x6Cu8], seq!["txt", "csv"])) by {
        let names: Seq<&str> = seq!["txt", "csv"];
        assert forall|i: int| 0 <= i < names.len() implies names[i].spec_bytes() != seq![0x78u8, 0x6Du8, 0x6Cu8] by {
            if i == 0 { assert(seq![0x78u8, 0x6Du8, 0x6Cu8][0] != "txt".spec_bytes()[0]); }
            if i == 1 { assert(seq![0x78u8, 0x6Du8, 0x6Cu8][0] != "csv".spec_bytes()[0]); }
        }
    }
    assert(seq![0x78u8, 0x6Du8, 0x6Cu8].len() != "json".spec_bytes().len());
}

/// The MIME type an image file name implies, by its extension in any
/// letter case: png and apng name PNG, jpg and jpeg JPEG, bmp BMP, tif and
/// tiff TIFF, webp WebP, gif GIF.
pub proof fn law_image_extension_mimes(name: Seq<u8>)
    ensures
        path_extension(name) matches Some(e) && lower(e) == seq![0x70u8, 0x6Eu8, 0x67u8] ==> name_mime(name) == Some("image/png"@),
        path_extension(name) matches Some(e) && lower(e) == seq![0x61u8, 0x70u8, 0x6Eu8, 0x67u8] ==> name_mime(name) == Some("image/png"@),
        path_extension(name) matches Some(e) && lower(e) == seq![0x6Au8, 0x70u8, 0x67u8] ==> name_mime(name) == Some("image/jpeg"@),
        path_extension(name) matches Some(e) && lower(e) == seq![0x6Au8, 0x70u8, 0x65u8, 0x67u8] ==> name_mime(name) == Some("image/jpeg"@),
        path_extension(name) matches Some(e) && lower(e) == seq![0x62u8, 0x6Du8, 0x70u8] ==> name_mime(name) == Some("image/bmp"@),
        path_extension(name) matches Some(e) && lower(e) == seq![0x74u8, 0x69u8, 0x66u8] ==> name_mime(name) == Some("image/tiff"@),
        path_extension(name) matches Some(e) && lower(e) == seq![0x74u8, 0x69u8, 0x66u8, 0x66u8] ==> name_mime(name) == Some("image/tiff"@),
        path_extension(name) matches Some(e) && lower(e) == seq![0x77u8, 0x65u8, 0x62u8, 0x70u8] ==> name_mime(name) == Some("image/webp"@),
        path_extension(name) matches Some(e) && lower(e) == seq![0x67u8, 0x69u8, 0x66u8] ==> name_mime(name) == Some("image/gif"@),
        path_extension(name) matches Some(e) && lower(e) == seq![0x6Du8, 0x70u8, 0x34u8] ==> name_mime(name) == Some("application/mp4"@),
{
    if path_extension(name) is Some {
        lemma_extension_mime_png();
        lemma_extension_mime_apng();
        lemma_extension_mime_jpg();
        lemma_extension_mime_jpeg();
        lemma_extension_mime_bmp();
        lemma_extension_mime_tif();
        lemma_extension_mime_tiff();
        lemma_extension_mime_webp();
        lemma_extension_mime_gif();
        lemma_extension_mime_mp4();
    }
}

/// The MIME type an audio or video file name implies, by its extension in
/// any letter case: mp4 and m4a the MP4 container, mov QuickTime, avi AVI,
/// mkv Matroska, webm WebM, mp3 MPEG audio, wav WAV, flac FLAC, aac AAC,
/// ogg, oga and opus Ogg, amr AMR, aif and aiff AIFF.
pub proof fn law_media_extension_mimes(name: Seq<u8>)
    ensures
        path_extension(name) matches Some(e) && lower(e) == seq![0x6Du8, 0x34u8, 0x61u8] ==> name_mime(name) == Some("application/mp4"@),
        path_extension(name) matches Some(e) && lower(e) == seq![0x6Du8, 0x6Fu8, 0x76u8] ==> name_mime(name) == Some("video/quicktime"@),
        path_extension(name) matches Some(e) && lower(e) == seq![0x61u8, 0x76u8, 0x69u8] ==> name_mime(name) == Some("video/x-msvideo"@),
        path_extension(name) matches Some(e) && lower(e) == seq![0x6Du8, 0x6Bu8, 0x76u8] ==> name_mime(name) == Some("video/matroska"@),
        path_extension(name) matches Some(e) && lower(e) == seq![0x77u8, 0x65u8, 0x62u8, 0x6Du8] ==> name_mime(name) == Some("video/webm"@),
        path_extension(name) matches Some(e) && lower(e) == seq![0x6Du8, 0x70u8, 0x33u8] ==> name_mime(name) == Some("audio/mpeg"@),
        path_extension(name) matches Some(e) && lower(e) == seq![0x77u8, 0x61u8, 0x76u8] ==> name_mime(name) == Some("audio/wav"@),
        path_extension(name) matches Some(e) && lower(e) == seq![0x66u8, 0x6Cu8, 0x61u8, 0x63u8] ==> name_mime(name) == Some("audio/flac"@),
        path_extension(name) matches Some(e) && lower(e) == seq![0x61u8, 0x61u8, 0x63u8] ==> name_mime(name) == Some("audio/aac"@),
        path_extension(name) matches Some(e) && lower(e) == seq![0x6Fu8, 0x67u8, 0x67u8] ==> name_mime(name) == Some("audio/ogg"@),
        path_extension(name) matches Some(e) && lower(e) == seq![0x6Fu8, 0x67u8, 0x61u8] ==> name_mime(name) == Some("audio/ogg"@),
        path_extension(name) matches Some(e) && lower(e) == seq![0x6Fu8, 0x70u8, 0x75u8, 0x73u8] ==> name_mime(name) == Some("audio/ogg"@),
        path_extension(name) matches Some(e) && lower(e) == seq![0x61u8, 0x6Du8, 0x72u8] ==> name_mime(name) == Some("audio/amr"@),
        path_extension(name) matches Some(e) && lower(e) == seq![0x61u8, 0x69u8, 0x66u8] ==> name_mime(name) == Some("audio/aiff"@),
        path_extension(name) matches Some(e) && lower(e) == seq![0x61u8, 0x69u8, 0x66u8, 0x66u8] ==> name_mime(name) == Some("audio/aiff"@),
        path_extension(name) matches Some(e) && lower(e) == seq![0x70u8, 0x64u8, 0x66u8] ==> name_mime(name) == Some("application/pdf"@),
        path_extension(name) matches Some(e) && lower(e) == seq![0x7Au8, 0x69u8, 0x70u8] ==> name_mime(name) == Some("application/zip"@),
        path_extension(name) matches Some(e) && lower(e) == seq![0x37u8, 0x7Au8] ==> name_mime(name) == Some("application/x-7z-compressed"@),
        path_extension(name) matches Some(e) && lower(e) == seq![0x74u8, 0x78u8, 0x74u8] ==> name_mime(name) == Some("text/plain"@),
        path_extension(name) matches Some(e) && lower(e) == seq![0x63u8, 0x73u8, 0x76u8] ==> name_mime(name) == Some("text/plain"@),
        path_extension(name) matches Some(e) && lower(e) == seq![0x6Au8, 0x73u8, 0x6Fu8, 0x6Eu8] ==> name_mime(name) == Some("application/json"@),
{
    if path_extension(name) is Some {
        lemma_extension_mime_m4a();
        lemma_extension_mime_mov();
        lemma_extension_mime_avi();
        lemma_extension_mime_mkv();
        lemma_extension_mime_webm();
        lemma_extension_mime_mp3();
        lemma_extension_mime_wav();
        lemma_extension_mime_flac();
        lemma_extension_mime_aac();
        lemma_extension_mime_ogg();
        lemma_extension_mime_oga();
        lemma_extension_mime_opus();
        lemma_extension_mime_amr();
        lemma_extension_mime_aif();
        lemma_extension_mime_aiff();
        lemma_extension_mime_pdf();
        lemma_extension_mime_zip();
        lemma_extension_mime_x7z();
        lemma_extension_mime_txt();
        lemma_extension_mime_csv();
        lemma_extension_mime_json();
    }
}

/// The MIME type a document or archive file name implies, by its extension
/// in any letter case: pdf PDF, zip ZIP, 7z 7-Zip, txt and csv plain text,
/// json JSON, xml XML.
pub proof fn law_document_extension_mimes(name: Seq<u8>)
    ensures
        path_extension(name) matches Some(e) && lower(e) == seq![0x78u8, 0x6Du8, 0x6Cu8] ==> name_mime(name) == Some("application/xml"@),
{
    if path_extension(name) is Some {
        lemma_extension_mime_xml();
    }
}

} // verus!
