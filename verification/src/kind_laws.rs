//! The kind tables of file extensions and MIME types, stated entry by
//! entry.
use vstd::prelude::*;
use vstd::string::StringSliceAdditionalSpecFns;

use crate::bytes::{has_prefix, is_one_of, lower, path_extension};
use crate::types::{
    audio_extensions, image_extensions, kind_from_extension, kind_from_mime_bytes, kind_from_name_bytes, other_extensions,
    video_extensions, FileKind,
};

verus! {

proof fn lemma_bytes_of_png()
    ensures
        "png".spec_bytes() == seq![0x70u8, 0x6Eu8, 0x67u8],
{
    broadcast use vstd::string::group_string_axioms;
    reveal_strlit("png");
    assert(vstd::string::is_ascii("png"));
    assert("png".spec_bytes() =~= seq![0x70u8, 0x6Eu8, 0x67u8]);
}

proof fn lemma_bytes_of_jpg()
    ensures
        "jpg".spec_bytes() == seq![0x6Au8, 0x70u8, 0x67u8],
{
    broadcast use vstd::string::group_string_axioms;
    reveal_strlit("jpg");
    assert(vstd::string::is_ascii("jpg"));
    assert("jpg".spec_bytes() =~= seq![0x6Au8, 0x70u8, 0x67u8]);
}

proof fn lemma_bytes_of_jpeg()
    ensures
        "jpeg".spec_bytes() == seq![0x6Au8, 0x70u8, 0x65u8, 0x67u8],
{
    broadcast use vstd::string::group_string_axioms;
    reveal_strlit("jpeg");
    assert(vstd::string::is_ascii("jpeg"));
    assert("jpeg".spec_bytes() =~= seq![0x6Au8, 0x70u8, 0x65u8, 0x67u8]);
}

proof fn lemma_bytes_of_bmp()
    ensures
        "bmp".spec_bytes() == seq![0x62u8, 0x6Du8, 0x70u8],
{
    broadcast use vstd::string::group_string_axioms;
    reveal_strlit("bmp");
    assert(vstd::string::is_ascii("bmp"));
    assert("bmp".spec_bytes() =~= seq![0x62u8, 0x6Du8, 0x70u8]);
}

proof fn lemma_bytes_of_tif()
    ensures
        "tif".spec_bytes() == seq![0x74u8, 0x69u8, 0x66u8],
{
    broadcast use vstd::string::group_string_axioms;
    reveal_strlit("tif");
    assert(vstd::string::is_ascii("tif"));
    assert("tif".spec_bytes() =~= seq![0x74u8, 0x69u8, 0x66u8]);
}

proof fn lemma_bytes_of_tiff()
    ensures
        "tiff".spec_bytes() == seq![0x74u8, 0x69u8, 0x66u8, 0x66u8],
{
    broadcast use vstd::string::group_string_axioms;
    reveal_strlit("tiff");
    assert(vstd::string::is_ascii("tiff"));
    assert("tiff".spec_bytes() =~= seq![0x74u8, 0x69u8, 0x66u8, 0x66u8]);
}

proof fn lemma_bytes_of_webp()
    ensures
        "webp".spec_bytes() == seq![0x77u8, 0x65u8, 0x62u8, 0x70u8],
{
    broadcast use vstd::string::group_string_axioms;
    reveal_strlit("webp");
    assert(vstd::string::is_ascii("webp"));
    assert("webp".spec_bytes() =~= seq![0x77u8, 0x65u8, 0x62u8, 0x70u8]);
}

proof fn lemma_bytes_of_apng()
    ensures
        "apng".spec_bytes() == seq![0x61u8, 0x70u8, 0x6Eu8, 0x67u8],
{
    broadcast use vstd::string::group_string_axioms;
    reveal_strlit("apng");
    assert(vstd::string::is_ascii("apng"));
    assert("apng".spec_bytes() =~= seq![0x61u8, 0x70u8, 0x6Eu8, 0x67u8]);
}

proof fn lemma_bytes_of_gif()
    ensures
        "gif".spec_bytes() == seq![0x67u8, 0x69u8, 0x66u8],
{
    broadcast use vstd::string::group_string_axioms;
    reveal_strlit("gif");
    assert(vstd::string::is_ascii("gif"));
    assert("gif".spec_bytes() =~= seq![0x67u8, 0x69u8, 0x66u8]);
}

proof fn lemma_bytes_of_mp4()
    ensures
        "mp4".spec_bytes() == seq![0x6Du8, 0x70u8, 0x34u8],
{
    broadcast use vstd::string::group_string_axioms;
    reveal_strlit("mp4");
    assert(vstd::string::is_ascii("mp4"));
    assert("mp4".spec_bytes() =~= seq![0x6Du8, 0x70u8, 0x34u8]);
}

proof fn lemma_bytes_of_mov()
    ensures
        "mov".spec_bytes() == seq![0x6Du8, 0x6Fu8, 0x76u8],
{
    broadcast use vstd::string::group_string_axioms;
    reveal_strlit("mov");
    assert(vstd::string::is_ascii("mov"));
    assert("mov".spec_bytes() =~= seq![0x6Du8, 0x6Fu8, 0x76u8]);
}

proof fn lemma_bytes_of_avi()
    ensures
        "avi".spec_bytes() == seq![0x61u8, 0x76u8, 0x69u8],
{
    broadcast use vstd::string::group_string_axioms;
    reveal_strlit("avi");
    assert(vstd::string::is_ascii("avi"));
    assert("avi".spec_bytes() =~= seq![0x61u8, 0x76u8, 0x69u8]);
}

proof fn lemma_bytes_of_mkv()
    ensures
        "mkv".spec_bytes() == seq![0x6Du8, 0x6Bu8, 0x76u8],
{
    broadcast use vstd::string::group_string_axioms;
    reveal_strlit("mkv");
    assert(vstd::string::is_ascii("mkv"));
    assert("mkv".spec_bytes() =~= seq![0x6Du8, 0x6Bu8, 0x76u8]);
}

proof fn lemma_bytes_of_webm()
    ensures
        "webm".spec_bytes() == seq![0x77u8, 0x65u8, 0x62u8, 0x6Du8],
{
    broadcast use vstd::string::group_string_axioms;
    reveal_strlit("webm");
    assert(vstd::string::is_ascii("webm"));
    assert("webm".spec_bytes() =~= seq![0x77u8, 0x65u8, 0x62u8, 0x6Du8]);
}

proof fn lemma_bytes_of_mp3()
    ensures
        "mp3".spec_bytes() == seq![0x6Du8, 0x70u8, 0x33u8],
{
    broadcast use vstd::string::group_string_axioms;
    reveal_strlit("mp3");
    assert(vstd::string::is_ascii("mp3"));
    assert("mp3".spec_bytes() =~= seq![0x6Du8, 0x70u8, 0x33u8]);
}

proof fn lemma_bytes_of_wav()
    ensures
        "wav".spec_bytes() == seq![0x77u8, 0x61u8, 0x76u8],
{
    broadcast use vstd::string::group_string_axioms;
    reveal_strlit("wav");
    assert(vstd::string::is_ascii("wav"));
    assert("wav".spec_bytes() =~= seq![0x77u8, 0x61u8, 0x76u8]);
}

proof fn lemma_bytes_of_flac()
    ensures
        "flac".spec_bytes() == seq![0x66u8, 0x6Cu8, 0x61u8, 0x63u8],
{
    broadcast use vstd::string::group_string_axioms;
    reveal_strlit("flac");
    assert(vstd::string::is_ascii("flac"));
    assert("flac".spec_bytes() =~= seq![0x66u8, 0x6Cu8, 0x61u8, 0x63u8]);
}

proof fn lemma_bytes_of_aac()
    ensures
        "aac".spec_bytes() == seq![0x61u8, 0x61u8, 0x63u8],
{
    broadcast use vstd::string::group_string_axioms;
    reveal_strlit("aac");
    assert(vstd::string::is_ascii("aac"));
    assert("aac".spec_bytes() =~= seq![0x61u8, 0x61u8, 0x63u8]);
}

proof fn lemma_bytes_of_m4a()
    ensures
        "m4a".spec_bytes() == seq![0x6Du8, 0x34u8, 0x61u8],
{
    broadcast use vstd::string::group_string_axioms;
    reveal_strlit("m4a");
    assert(vstd::string::is_ascii("m4a"));
    assert("m4a".spec_bytes() =~= seq![0x6Du8, 0x34u8, 0x61u8]);
}

proof fn lemma_bytes_of_ogg()
    ensures
        "ogg".spec_bytes() == seq![0x6Fu8, 0x67u8, 0x67u8],
{
    broadcast use vstd::string::group_string_axioms;
    reveal_strlit("ogg");
    assert(vstd::string::is_ascii("ogg"));
    assert("ogg".spec_bytes() =~= seq![0x6Fu8, 0x67u8, 0x67u8]);
}

proof fn lemma_bytes_of_oga()
    ensures
        "oga".spec_bytes() == seq![0x6Fu8, 0x67u8, 0x61u8],
{
    broadcast use vstd::string::group_string_axioms;
    reveal_strlit("oga");
    assert(vstd::string::is_ascii("oga"));
    assert("oga".spec_bytes() =~= seq![0x6Fu8, 0x67u8, 0x61u8]);
}

proof fn lemma_bytes_of_opus()
    ensures
        "opus".spec_bytes() == seq![0x6Fu8, 0x70u8, 0x75u8, 0x73u8],
{
    broadcast use vstd::string::group_string_axioms;
    reveal_strlit("opus");
    assert(vstd::string::is_ascii("opus"));
    assert("opus".spec_bytes() =~= seq![0x6Fu8, 0x70u8, 0x75u8, 0x73u8]);
}

proof fn lemma_bytes_of_wma()
    ensures
        "wma".spec_bytes() == seq![0x77u8, 0x6Du8, 0x61u8],
{
    broadcast use vstd::string::group_string_axioms;
    reveal_strlit("wma");
    assert(vstd::string::is_ascii("wma"));
    assert("wma".spec_bytes() =~= seq![0x77u8, 0x6Du8, 0x61u8]);
}

proof fn lemma_bytes_of_amr()
    ensures
        "amr".spec_bytes() == seq![0x61u8, 0x6Du8, 0x72u8],
{
    broadcast use vstd::string::group_string_axioms;
    reveal_strlit("amr");
    assert(vstd::string::is_ascii("amr"));
    assert("amr".spec_bytes() =~= seq![0x61u8, 0x6Du8, 0x72u8]);
}

proof fn lemma_bytes_of_aiff()
    ensures
        "aiff".spec_bytes() == seq![0x61u8, 0x69u8, 0x66u8, 0x66u8],
{
    broadcast use vstd::string::group_string_axioms;
    reveal_strlit("aiff");
    assert(vstd::string::is_ascii("aiff"));
    assert("aiff".spec_bytes() =~= seq![0x61u8, 0x69u8, 0x66u8, 0x66u8]);
}

proof fn lemma_bytes_of_alac()
    ensures
        "alac".spec_bytes() == seq![0x61u8, 0x6Cu8, 0x61u8, 0x63u8],
{
    broadcast use vstd::string::group_string_axioms;
    reveal_strlit("alac");
    assert(vstd::string::is_ascii("alac"));
    assert("alac".spec_bytes() =~= seq![0x61u8, 0x6Cu8, 0x61u8, 0x63u8]);
}

proof fn lemma_bytes_of_pdf()
    ensures
        "pdf".spec_bytes() == seq![0x70u8, 0x64u8, 0x66u8],
{
    broadcast use vstd::string::group_string_axioms;
    reveal_strlit("pdf");
    assert(vstd::string::is_ascii("pdf"));
    assert("pdf".spec_bytes() =~= seq![0x70u8, 0x64u8, 0x66u8]);
}

proof fn lemma_bytes_of_txt()
    ensures
        "txt".spec_bytes() == seq![0x74u8, 0x78u8, 0x74u8],
{
    broadcast use vstd::string::group_string_axioms;
    reveal_strlit("txt");
    assert(vstd::string::is_ascii("txt"));
    assert("txt".spec_bytes() =~= seq![0x74u8, 0x78u8, 0x74u8]);
}

proof fn lemma_bytes_of_csv()
    ensures
        "csv".spec_bytes() == seq![0x63u8, 0x73u8, 0x76u8],
{
    broadcast use vstd::string::group_string_axioms;
    reveal_strlit("csv");
    assert(vstd::string::is_ascii("csv"));
    assert("csv".spec_bytes() =~= seq![0x63u8, 0x73u8, 0x76u8]);
}

proof fn lemma_bytes_of_json()
    ensures
        "json".spec_bytes() == seq![0x6Au8, 0x73u8, 0x6Fu8, 0x6Eu8],
{
    broadcast use vstd::string::group_string_axioms;
    reveal_strlit("json");
    assert(vstd::string::is_ascii("json"));
    assert("json".spec_bytes() =~= seq![0x6Au8, 0x73u8, 0x6Fu8, 0x6Eu8]);
}

proof fn lemma_bytes_of_xml()
    ensures
        "xml".spec_bytes() == seq![0x78u8, 0x6Du8, 0x6Cu8],
{
    broadcast use vstd::string::group_string_axioms;
    reveal_strlit("xml");
    assert(vstd::string::is_ascii("xml"));
    assert("xml".spec_bytes() =~= seq![0x78u8, 0x6Du8, 0x6Cu8]);
}

proof fn lemma_bytes_of_doc()
    ensures
        "doc".spec_bytes() == seq![0x64u8, 0x6Fu8, 0x63u8],
{
    broadcast use vstd::string::group_string_axioms;
    reveal_strlit("doc");
    assert(vstd::string::is_ascii("doc"));
    assert("doc".spec_bytes() =~= seq![0x64u8, 0x6Fu8, 0x63u8]);
}

proof fn lemma_bytes_of_docx()
    ensures
        "docx".spec_bytes() == seq![0x64u8, 0x6Fu8, 0x63u8, 0x78u8],
{
    broadcast use vstd::string::group_string_axioms;
    reveal_strlit("docx");
    assert(vstd::string::is_ascii("docx"));
    assert("docx".spec_bytes() =~= seq![0x64u8, 0x6Fu8, 0x63u8, 0x78u8]);
}

proof fn lemma_bytes_of_zip()
    ensures
        "zip".spec_bytes() == seq![0x7Au8, 0x69u8, 0x70u8],
{
    broadcast use vstd::string::group_string_axioms;
    reveal_strlit("zip");
    assert(vstd::string::is_ascii("zip"));
    assert("zip".spec_bytes() =~= seq![0x7Au8, 0x69u8, 0x70u8]);
}

proof fn lemma_bytes_of_x7z()
    ensures
        "7z".spec_bytes() == seq![0x37u8, 0x7Au8],
{
    broadcast use vstd::string::group_string_axioms;
    reveal_strlit("7z");
    assert(vstd::string::is_ascii("7z"));
    assert("7z".spec_bytes() =~= seq![0x37u8, 0x7Au8]);
}

#[verifier::rlimit(100)]
proof fn lemma_extension_kind_png()
    ensures
        kind_from_extension(seq![0x70u8, 0x6Eu8, 0x67u8]) == Some(FileKind::Image),
{
    lemma_bytes_of_png();
    assert(image_extensions()[0].spec_bytes() == seq![0x70u8, 0x6Eu8, 0x67u8]);
}

#[verifier::rlimit(100)]
proof fn lemma_extension_kind_jpg()
    ensures
        kind_from_extension(seq![0x6Au8, 0x70u8, 0x67u8]) == Some(FileKind::Image),
{
    lemma_bytes_of_jpg();
    assert(image_extensions()[1].spec_bytes() == seq![0x6Au8, 0x70u8, 0x67u8]);
}

#[verifier::rlimit(100)]
proof fn lemma_extension_kind_jpeg()
    ensures
        kind_from_extension(seq![0x6Au8, 0x70u8, 0x65u8, 0x67u8]) == Some(FileKind::Image),
{
    lemma_bytes_of_jpeg();
    assert(image_extensions()[2].spec_bytes() == seq![0x6Au8, 0x70u8, 0x65u8, 0x67u8]);
}

#[verifier::rlimit(100)]
proof fn lemma_extension_kind_bmp()
    ensures
        kind_from_extension(seq![0x62u8, 0x6Du8, 0x70u8]) == Some(FileKind::Image),
{
    lemma_bytes_of_bmp();
    assert(image_extensions()[3].spec_bytes() == seq![0x62u8, 0x6Du8, 0x70u8]);
}

#[verifier::rlimit(100)]
proof fn lemma_extension_kind_tif()
    ensures
        kind_from_extension(seq![0x74u8, 0x69u8, 0x66u8]) == Some(FileKind::Image),
{
    lemma_bytes_of_tif();
    assert(image_extensions()[4].spec_bytes() == seq![0x74u8, 0x69u8, 0x66u8]);
}

#[verifier::rlimit(100)]
proof fn lemma_extension_kind_tiff()
    ensures
        kind_from_extension(seq![0x74u8, 0x69u8, 0x66u8, 0x66u8]) == Some(FileKind::Image),
{
    lemma_bytes_of_tiff();
    assert(image_extensions()[5].spec_bytes() == seq![0x74u8, 0x69u8, 0x66u8, 0x66u8]);
}

#[verifier::rlimit(100)]
proof fn lemma_extension_kind_webp()
    ensures
        kind_from_extension(seq![0x77u8, 0x65u8, 0x62u8, 0x70u8]) == Some(FileKind::Image),
{
    lemma_bytes_of_webp();
    assert(image_extensions()[6].spec_bytes() == seq![0x77u8, 0x65u8, 0x62u8, 0x70u8]);
}

#[verifier::rlimit(100)]
proof fn lemma_extension_kind_apng()
    ensures
        kind_from_extension(seq![0x61u8, 0x70u8, 0x6Eu8, 0x67u8]) == Some(FileKind::AnimatedImage),
{
    lemma_bytes_of_png();
    lemma_bytes_of_jpg();
    lemma_bytes_of_jpeg();
    lemma_bytes_of_bmp();
    lemma_bytes_of_tif();
    lemma_bytes_of_tiff();
    lemma_bytes_of_webp();
    lemma_bytes_of_apng();
    assert(!is_one_of(seq![0x61u8, 0x70u8, 0x6Eu8, 0x67u8], image_extensions())) by {
        let names: Seq<&str> = image_extensions();
        assert forall|i: int| 0 <= i < names.len() implies names[i].spec_bytes() != seq![0x61u8, 0x70u8, 0x6Eu8, 0x67u8] by {
            if i == 0 { assert(seq![0x61u8, 0x70u8, 0x6Eu8, 0x67u8].len() != "png".spec_bytes().len()); }
            if i == 1 { assert(seq![0x61u8, 0x70u8, 0x6Eu8, 0x67u8].len() != "jpg".spec_bytes().len()); }
            if i == 2 { assert(seq![0x61u8, 0x70u8, 0x6Eu8, 0x67u8][0] != "jpeg".spec_bytes()[0]); }
            if i == 3 { assert(seq![0x61u8, 0x70u8, 0x6Eu8, 0x67u8].len() != "bmp".spec_bytes().len()); }
            if i == 4 { assert(seq![0x61u8, 0x70u8, 0x6Eu8, 0x67u8].len() != "tif".spec_bytes().len()); }
            if i == 5 { assert(seq![0x61u8, 0x70u8, 0x6Eu8, 0x67u8][0] != "tiff".spec_bytes()[0]); }
            if i == 6 { assert(seq![0x61u8, 0x70u8, 0x6Eu8, 0x67u8][0] != "webp".spec_bytes()[0]); }
        }
    }
}

#[verifier::rlimit(100)]
proof fn lemma_extension_kind_gif()
    ensures
        kind_from_extension(seq![0x67u8, 0x69u8, 0x66u8]) == Some(FileKind::Gif),
{
    lemma_bytes_of_png();
    lemma_bytes_of_jpg();
    lemma_bytes_of_jpeg();
    lemma_bytes_of_bmp();
    lemma_bytes_of_tif();
    lemma_bytes_of_tiff();
    lemma_bytes_of_webp();
    lemma_bytes_of_apng();
    lemma_bytes_of_gif();
    assert(!is_one_of(seq![0x67u8, 0x69u8, 0x66u8], image_extensions())) by {
        let names: Seq<&str> = image_extensions();
        assert forall|i: int| 0 <= i < names.len() implies names[i].spec_bytes() != seq![0x67u8, 0x69u8, 0x66u8] by {
            if i == 0 { assert(seq![0x67u8, 0x69u8, 0x66u8][0] != "png".spec_bytes()[0]); }
            if i == 1 { assert(seq![0x67u8, 0x69u8, 0x66u8][0] != "jpg".spec_bytes()[0]); }
            if i == 2 { assert(seq![0x67u8, 0x69u8, 0x66u8].len() != "jpeg".spec_bytes().len()); }
            if i == 3 { assert(seq![0x67u8, 0x69u8, 0x66u8][0] != "bmp".spec_bytes()[0]); }
            if i == 4 { assert(seq![0x67u8, 0x69u8, 0x66u8][0] != "tif".spec_bytes()[0]); }
            if i == 5 { assert(seq![0x67u8, 0x69u8, 0x66u8].len() != "tiff".spec_bytes().len()); }
            if i == 6 { assert(seq![0x67u8, 0x69u8, 0x66u8].len() != "webp".spec_bytes().len()); }
        }
    }
    assert(seq![0x67u8, 0x69u8, 0x66u8].len() != "apng".spec_bytes().len());
}

#[verifier::rlimit(100)]
proof fn lemma_extension_kind_mp4()
    ensures
        kind_from_extension(seq![0x6Du8, 0x70u8, 0x34u8]) == Some(FileKind::Video),
{
    lemma_bytes_of_png();
    lemma_bytes_of_jpg();
    lemma_bytes_of_jpeg();
    lemma_bytes_of_bmp();
    lemma_bytes_of_tif();
    lemma_bytes_of_tiff();
    lemma_bytes_of_webp();
    lemma_bytes_of_apng();
    lemma_bytes_of_gif();
    lemma_bytes_of_mp4();
    assert(!is_one_of(seq![0x6Du8, 0x70u8, 0x34u8], image_extensions())) by {
        let names: Seq<&str> = image_extensions();
        assert forall|i: int| 0 <= i < names.len() implies names[i].spec_bytes() != seq![0x6Du8, 0x70u8, 0x34u8] by {
            if i == 0 { assert(seq![0x6Du8, 0x70u8, 0x34u8][0] != "png".spec_bytes()[0]); }
            if i == 1 { assert(seq![0x6Du8, 0x70u8, 0x34u8][0] != "jpg".spec_bytes()[0]); }
            if i == 2 { assert(seq![0x6Du8, 0x70u8, 0x34u8].len() != "jpeg".spec_bytes().len()); }
            if i == 3 { assert(seq![0x6Du8, 0x70u8, 0x34u8][0] != "bmp".spec_bytes()[0]); }
            if i == 4 { assert(seq![0x6Du8, 0x70u8, 0x34u8][0] != "tif".spec_bytes()[0]); }
            if i == 5 { assert(seq![0x6Du8, 0x70u8, 0x34u8].len() != "tiff".spec_bytes().len()); }
            if i == 6 { assert(seq![0x6Du8, 0x70u8, 0x34u8].len() != "webp".spec_bytes().len()); }
        }
    }
    assert(seq![0x6Du8, 0x70u8, 0x34u8].len() != "apng".spec_bytes().len());
    assert(seq![0x6Du8, 0x70u8, 0x34u8][0] != "gif".spec_bytes()[0]);
    assert(video_extensions()[0].spec_bytes() == seq![0x6Du8, 0x70u8, 0x34u8]);
}

#[verifier::rlimit(100)]
proof fn lemma_extension_kind_mov()
    ensures
        kind_from_extension(seq![0x6Du8, 0x6Fu8, 0x76u8]) == Some(FileKind::Video),
{
    lemma_bytes_of_png();
    lemma_bytes_of_jpg();
    lemma_bytes_of_jpeg();
    lemma_bytes_of_bmp();
    lemma_bytes_of_tif();
    lemma_bytes_of_tiff();
    lemma_bytes_of_webp();
    lemma_bytes_of_apng();
    lemma_bytes_of_gif();
    lemma_bytes_of_mov();
    assert(!is_one_of(seq![0x6Du8, 0x6Fu8, 0x76u8], image_extensions())) by {
        let names: Seq<&str> = image_extensions();
        assert forall|i: int| 0 <= i < names.len() implies names[i].spec_bytes() != seq![0x6Du8, 0x6Fu8, 0x76u8] by {
            if i == 0 { assert(seq![0x6Du8, 0x6Fu8, 0x76u8][0] != "png".spec_bytes()[0]); }
            if i == 1 { assert(seq![0x6Du8, 0x6Fu8, 0x76u8][0] != "jpg".spec_bytes()[0]); }
            if i == 2 { assert(seq![0x6Du8, 0x6Fu8, 0x76u8].len() != "jpeg".spec_bytes().len()); }
            if i == 3 { assert(seq![0x6Du8, 0x6Fu8, 0x76u8][0] != "bmp".spec_bytes()[0]); }
            if i == 4 { assert(seq![0x6Du8, 0x6Fu8, 0x76u8][0] != "tif".spec_bytes()[0]); }
            if i == 5 { assert(seq![0x6Du8, 0x6Fu8, 0x76u8].len() != "tiff".spec_bytes().len()); }
            if i == 6 { assert(seq![0x6Du8, 0x6Fu8, 0x76u8].len() != "webp".spec_bytes().len()); }
        }
    }
    assert(seq![0x6Du8, 0x6Fu8, 0x76u8].len() != "apng".spec_bytes().len());
    assert(seq![0x6Du8, 0x6Fu8, 0x76u8][0] != "gif".spec_bytes()[0]);
    assert(video_extensions()[1].spec_bytes() == seq![0x6Du8, 0x6Fu8, 0x76u8]);
}

#[verifier::rlimit(100)]
proof fn lemma_extension_kind_avi()
    ensures
        kind_from_extension(seq![0x61u8, 0x76u8, 0x69u8]) == Some(FileKind::Video),
{
    lemma_bytes_of_png();
    lemma_bytes_of_jpg();
    lemma_bytes_of_jpeg();
    lemma_bytes_of_bmp();
    lemma_bytes_of_tif();
    lemma_bytes_of_tiff();
    lemma_bytes_of_webp();
    lemma_bytes_of_apng();
    lemma_bytes_of_gif();
    lemma_bytes_of_avi();
    assert(!is_one_of(seq![0x61u8, 0x76u8, 0x69u8], image_extensions())) by {
        let names: Seq<&str> = image_extensions();
        assert forall|i: int| 0 <= i < names.len() implies names[i].spec_bytes() != seq![0x61u8, 0x76u8, 0x69u8] by {
            if i == 0 { assert(seq![0x61u8, 0x76u8, 0x69u8][0] != "png".spec_bytes()[0]); }
            if i == 1 { assert(seq![0x61u8, 0x76u8, 0x69u8][0] != "jpg".spec_bytes()[0]); }
            if i == 2 { assert(seq![0x61u8, 0x76u8, 0x69u8].len() != "jpeg".spec_bytes().len()); }
            if i == 3 { assert(seq![0x61u8, 0x76u8, 0x69u8][0] != "bmp".spec_bytes()[0]); }
            if i == 4 { assert(seq![0x61u8, 0x76u8, 0x69u8][0] != "tif".spec_bytes()[0]); }
            if i == 5 { assert(seq![0x61u8, 0x76u8, 0x69u8].len() != "tiff".spec_bytes().len()); }
            if i == 6 { assert(seq![0x61u8, 0x76u8, 0x69u8].len() != "webp".spec_bytes().len()); }
        }
    }
    assert(seq![0x61u8, 0x76u8, 0x69u8].len() != "apng".spec_bytes().len());
    assert(seq![0x61u8, 0x76u8, 0x69u8][0] != "gif".spec_bytes()[0]);
    assert(video_extensions()[2].spec_bytes() == seq![0x61u8, 0x76u8, 0x69u8]);
}

#[verifier::rlimit(100)]
proof fn lemma_extension_kind_mkv()
    ensures
        kind_from_extension(seq![0x6Du8, 0x6Bu8, 0x76u8]) == Some(FileKind::Video),
{
    lemma_bytes_of_png();
    lemma_bytes_of_jpg();
    lemma_bytes_of_jpeg();
    lemma_bytes_of_bmp();
    lemma_bytes_of_tif();
    lemma_bytes_of_tiff();
    lemma_bytes_of_webp();
    lemma_bytes_of_apng();
    lemma_bytes_of_gif();
    lemma_bytes_of_mkv();
    assert(!is_one_of(seq![0x6Du8, 0x6Bu8, 0x76u8], image_extensions())) by {
        let names: Seq<&str> = image_extensions();
        assert forall|i: int| 0 <= i < names.len() implies names[i].spec_bytes() != seq![0x6Du8, 0x6Bu8, 0x76u8] by {
            if i == 0 { assert(seq![0x6Du8, 0x6Bu8, 0x76u8][0] != "png".spec_bytes()[0]); }
            if i == 1 { assert(seq![0x6Du8, 0x6Bu8, 0x76u8][0] != "jpg".spec_bytes()[0]); }
            if i == 2 { assert(seq![0x6Du8, 0x6Bu8, 0x76u8].len() != "jpeg".spec_bytes().len()); }
            if i == 3 { assert(seq![0x6Du8, 0x6Bu8, 0x76u8][0] != "bmp".spec_bytes()[0]); }
            if i == 4 { assert(seq![0x6Du8, 0x6Bu8, 0x76u8][0] != "tif".spec_bytes()[0]); }
            if i == 5 { assert(seq![0x6Du8, 0x6Bu8, 0x76u8].len() != "tiff".spec_bytes().len()); }
            if i == 6 { assert(seq![0x6Du8, 0x6Bu8, 0x76u8].len() != "webp".spec_bytes().len()); }
        }
    }
    assert(seq![0x6Du8, 0x6Bu8, 0x76u8].len() != "apng".spec_bytes().len());
    assert(seq![0x6Du8, 0x6Bu8, 0x76u8][0] != "gif".spec_bytes()[0]);
    assert(video_extensions()[3].spec_bytes() == seq![0x6Du8, 0x6Bu8, 0x76u8]);
}

#[verifier::rlimit(100)]
proof fn lemma_extension_kind_webm()
    ensures
        kind_from_extension(seq![0x77u8, 0x65u8, 0x62u8, 0x6Du8]) == Some(FileKind::Video),
{
    lemma_bytes_of_png();
    lemma_bytes_of_jpg();
    lemma_bytes_of_jpeg();
    lemma_bytes_of_bmp();
    lemma_bytes_of_tif();
    lemma_bytes_of_tiff();
    lemma_bytes_of_webp();
    lemma_bytes_of_apng();
    lemma_bytes_of_gif();
    lemma_bytes_of_webm();
    assert(!is_one_of(seq![0x77u8, 0x65u8, 0x62u8, 0x6Du8], image_extensions())) by {
        let names: Seq<&str> = image_extensions();
        assert forall|i: int| 0 <= i < names.len() implies names[i].spec_bytes() != seq![0x77u8, 0x65u8, 0x62u8, 0x6Du8] by {
            if i == 0 { assert(seq![0x77u8, 0x65u8, 0x62u8, 0x6Du8].len() != "png".spec_bytes().len()); }
            if i == 1 { assert(seq![0x77u8, 0x65u8, 0x62u8, 0x6Du8].len() != "jpg".spec_bytes().len()); }
            if i == 2 { assert(seq![0x77u8, 0x65u8, 0x62u8, 0x6Du8][0] != "jpeg".spec_bytes()[0]); }
            if i == 3 { assert(seq![0x77u8, 0x65u8, 0x62u8, 0x6Du8].len() != "bmp".spec_bytes().len()); }
            if i == 4 { assert(seq![0x77u8, 0x65u8, 0x62u8, 0x6Du8].len() != "tif".spec_bytes().len()); }
            if i == 5 { assert(seq![0x77u8, 0x65u8, 0x62u8, 0x6Du8][0] != "tiff".spec_bytes()[0]); }
            if i == 6 { assert(seq![0x77u8, 0x65u8, 0x62u8, 0x6Du8][3] != "webp".spec_bytes()[3]); }
        }
    }
    assert(seq![0x77u8, 0x65u8, 0x62u8, 0x6Du8][0] != "apng".spec_bytes()[0]);
    assert(seq![0x77u8, 0x65u8, 0x62u8, 0x6Du8].len() != "gif".spec_bytes().len());
    assert(video_extensions()[4].spec_bytes() == seq![0x77u8, 0x65u8, 0x62u8, 0x6Du8]);
}

#[verifier::rlimit(100)]
proof fn lemma_extension_kind_mp3()
    ensures
        kind_from_extension(seq![0x6Du8, 0x70u8, 0x33u8]) == Some(FileKind::Audio),
{
    lemma_bytes_of_png();
    lemma_bytes_of_jpg();
    lemma_bytes_of_jpeg();
    lemma_bytes_of_bmp();
    lemma_bytes_of_tif();
    lemma_bytes_of_tiff();
    lemma_bytes_of_webp();
    lemma_bytes_of_apng();
    lemma_bytes_of_gif();
    lemma_bytes_of_mp4();
    lemma_bytes_of_mov();
    lemma_bytes_of_avi();
    lemma_bytes_of_mkv();
    lemma_bytes_of_webm();
    lemma_bytes_of_mp3();
    assert(!is_one_of(seq![0x6Du8, 0x70u8, 0x33u8], image_extensions())) by {
        let names: Seq<&str> = image_extensions();
        assert forall|i: int| 0 <= i < names.len() implies names[i].spec_bytes() != seq![0x6Du8, 0x70u8, 0x33u8] by {
            if i == 0 { assert(seq![0x6Du8, 0x70u8, 0x33u8][0] != "png".spec_bytes()[0]); }
            if i == 1 { assert(seq![0x6Du8, 0x70u8, 0x33u8][0] != "jpg".spec_bytes()[0]); }
            if i == 2 { assert(seq![0x6Du8, 0x70u8, 0x33u8].len() != "jpeg".spec_bytes().len()); }
            if i == 3 { assert(seq![0x6Du8, 0x70u8, 0x33u8][0] != "bmp".spec_bytes()[0]); }
            if i == 4 { assert(seq![0x6Du8, 0x70u8, 0x33u8][0] != "tif".spec_bytes()[0]); }
            if i == 5 { assert(seq![0x6Du8, 0x70u8, 0x33u8].len() != "tiff".spec_bytes().len()); }
            if i == 6 { assert(seq![0x6Du8, 0x70u8, 0x33u8].len() != "webp".spec_bytes().len()); }
        }
    }
    assert(seq![0x6Du8, 0x70u8, 0x33u8].len() != "apng".spec_bytes().len());
    assert(seq![0x6Du8, 0x70u8, 0x33u8][0] != "gif".spec_bytes()[0]);
    assert(!is_one_of(seq![0x6Du8, 0x70u8, 0x33u8], video_extensions())) by {
        let names: Seq<&str> = video_extensions();
        assert forall|i: int| 0 <= i < names.len() implies names[i].spec_bytes() != seq![0x6Du8, 0x70u8, 0x33u8] by {
            if i == 0 { assert(seq![0x6Du8, 0x70u8, 0x33u8][2] != "mp4".spec_bytes()[2]); }
            if i == 1 { assert(seq![0x6Du8, 0x70u8, 0x33u8][1] != "mov".spec_bytes()[1]); }
            if i == 2 { assert(seq![0x6Du8, 0x70u8, 0x33u8][0] != "avi".spec_bytes()[0]); }
            if i == 3 { assert(seq![0x6Du8, 0x70u8, 0x33u8][1] != "mkv".spec_bytes()[1]); }
            if i == 4 { assert(seq![0x6Du8, 0x70u8, 0x33u8].len() != "webm".spec_bytes().len()); }
        }
    }
    assert(audio_extensions()[0].spec_bytes() == seq![0x6Du8, 0x70u8, 0x33u8]);
}

#[verifier::rlimit(100)]
proof fn lemma_extension_kind_wav()
    ensures
        kind_from_extension(seq![0x77u8, 0x61u8, 0x76u8]) == Some(FileKind::Audio),
{
    lemma_bytes_of_png();
    lemma_bytes_of_jpg();
    lemma_bytes_of_jpeg();
    lemma_bytes_of_bmp();
    lemma_bytes_of_tif();
    lemma_bytes_of_tiff();
    lemma_bytes_of_webp();
    lemma_bytes_of_apng();
    lemma_bytes_of_gif();
    lemma_bytes_of_mp4();
    lemma_bytes_of_mov();
    lemma_bytes_of_avi();
    lemma_bytes_of_mkv();
    lemma_bytes_of_webm();
    lemma_bytes_of_wav();
    assert(!is_one_of(seq![0x77u8, 0x61u8, 0x76u8], image_extensions())) by {
        let names: Seq<&str> = image_extensions();
        assert forall|i: int| 0 <= i < names.len() implies names[i].spec_bytes() != seq![0x77u8, 0x61u8, 0x76u8] by {
            if i == 0 { assert(seq![0x77u8, 0x61u8, 0x76u8][0] != "png".spec_bytes()[0]); }
            if i == 1 { assert(seq![0x77u8, 0x61u8, 0x76u8][0] != "jpg".spec_bytes()[0]); }
            if i == 2 { assert(seq![0x77u8, 0x61u8, 0x76u8].len() != "jpeg".spec_bytes().len()); }
            if i == 3 { assert(seq![0x77u8, 0x61u8, 0x76u8][0] != "bmp".spec_bytes()[0]); }
            if i == 4 { assert(seq![0x77u8, 0x61u8, 0x76u8][0] != "tif".spec_bytes()[0]); }
            if i == 5 { assert(seq![0x77u8, 0x61u8, 0x76u8].len() != "tiff".spec_bytes().len()); }
            if i == 6 { assert(seq![0x77u8, 0x61u8, 0x76u8].len() != "webp".spec_bytes().len()); }
        }
    }
    assert(seq![0x77u8, 0x61u8, 0x76u8].len() != "apng".spec_bytes().len());
    assert(seq![0x77u8, 0x61u8, 0x76u8][0] != "gif".spec_bytes()[0]);
    assert(!is_one_of(seq![0x77u8, 0x61u8, 0x76u8], video_extensions())) by {
        let names: Seq<&str> = video_extensions();
        assert forall|i: int| 0 <= i < names.len() implies names[i].spec_bytes() != seq![0x77u8, 0x61u8, 0x76u8] by {
            if i == 0 { assert(seq![0x77u8, 0x61u8, 0x76u8][0] != "mp4".spec_bytes()[0]); }
            if i == 1 { assert(seq![0x77u8, 0x61u8, 0x76u8][0] != "mov".spec_bytes()[0]); }
            if i == 2 { assert(seq![0x77u8, 0x61u8, 0x76u8][0] != "avi".spec_bytes()[0]); }
            if i == 3 { assert(seq![0x77u8, 0x61u8, 0x76u8][0] != "mkv".spec_bytes()[0]); }
            if i == 4 { assert(seq![0x77u8, 0x61u8, 0x76u8].len() != "webm".spec_bytes().len()); }
        }
    }
    assert(audio_extensions()[1].spec_bytes() == seq![0x77u8, 0x61u8, 0x76u8]);
}

#[verifier::rlimit(100)]
proof fn lemma_extension_kind_flac()
    ensures
        kind_from_extension(seq![0x66u8, 0x6Cu8, 0x61u8, 0x63u8]) == Some(FileKind::Audio),
{
    lemma_bytes_of_png();
    lemma_bytes_of_jpg();
    lemma_bytes_of_jpeg();
    lemma_bytes_of_bmp();
    lemma_bytes_of_tif();
    lemma_bytes_of_tiff();
    lemma_bytes_of_webp();
    lemma_bytes_of_apng();
    lemma_bytes_of_gif();
    lemma_bytes_of_mp4();
    lemma_bytes_of_mov();
    lemma_bytes_of_avi();
    lemma_bytes_of_mkv();
    lemma_bytes_of_webm();
    lemma_bytes_of_flac();
    assert(!is_one_of(seq![0x66u8, 0x6Cu8, 0x61u8, 0x63u8], image_extensions())) by {
        let names: Seq<&str> = image_extensions();
        assert forall|i: int| 0 <= i < names.len() implies names[i].spec_bytes() != seq![0x66u8, 0x6Cu8, 0x61u8, 0x63u8] by {
            if i == 0 { assert(seq![0x66u8, 0x6Cu8, 0x61u8, 0x63u8].len() != "png".spec_bytes().len()); }
            if i == 1 { assert(seq![0x66u8, 0x6Cu8, 0x61u8, 0x63u8].len() != "jpg".spec_bytes().len()); }
            if i == 2 { assert(seq![0x66u8, 0x6Cu8, 0x61u8, 0x63u8][0] != "jpeg".spec_bytes()[0]); }
            if i == 3 { assert(seq![0x66u8, 0x6Cu8, 0x61u8, 0x63u8].len() != "bmp".spec_bytes().len()); }
            if i == 4 { assert(seq![0x66u8, 0x6Cu8, 0x61u8, 0x63u8].len() != "tif".spec_bytes().len()); }
            if i == 5 { assert(seq![0x66u8, 0x6Cu8, 0x61u8, 0x63u8][0] != "tiff".spec_bytes()[0]); }
            if i == 6 { assert(seq![0x66u8, 0x6Cu8, 0x61u8, 0x63u8][0] != "webp".spec_bytes()[0]); }
        }
    }
    assert(seq![0x66u8, 0x6Cu8, 0x61u8, 0x63u8][0] != "apng".spec_bytes()[0]);
    assert(seq![0x66u8, 0x6Cu8, 0x61u8, 0x63u8].len() != "gif".spec_bytes().len());
    assert(!is_one_of(seq![0x66u8, 0x6Cu8, 0x61u8, 0x63u8], video_extensions())) by {
        let names: Seq<&str> = video_extensions();
        assert forall|i: int| 0 <= i < names.len() implies names[i].spec_bytes() != seq![0x66u8, 0x6Cu8, 0x61u8, 0x63u8] by {
            if i == 0 { assert(seq![0x66u8, 0x6Cu8, 0x61u8, 0x63u8].len() != "mp4".spec_bytes().len()); }
            if i == 1 { assert(seq![0x66u8, 0x6Cu8, 0x61u8, 0x63u8].len() != "mov".spec_bytes().len()); }
            if i == 2 { assert(seq![0x66u8, 0x6Cu8, 0x61u8, 0x63u8].len() != "avi".spec_bytes().len()); }
            if i == 3 { assert(seq![0x66u8, 0x6Cu8, 0x61u8, 0x63u8].len() != "mkv".spec_bytes().len()); }
            if i == 4 { assert(seq![0x66u8, 0x6Cu8, 0x61u8, 0x63u8][0] != "webm".spec_bytes()[0]); }
        }
    }
    assert(audio_extensions()[2].spec_bytes() == seq![0x66u8, 0x6Cu8, 0x61u8, 0x63u8]);
}

#[verifier::rlimit(100)]
proof fn lemma_extension_kind_aac()
    ensures
        kind_from_extension(seq![0x61u8, 0x61u8, 0x63u8]) == Some(FileKind::Audio),
{
    lemma_bytes_of_png();
    lemma_bytes_of_jpg();
    lemma_bytes_of_jpeg();
    lemma_bytes_of_bmp();
    lemma_bytes_of_tif();
    lemma_bytes_of_tiff();
    lemma_bytes_of_webp();
    lemma_bytes_of_apng();
    lemma_bytes_of_gif();
    lemma_bytes_of_mp4();
    lemma_bytes_of_mov();
    lemma_bytes_of_avi();
    lemma_bytes_of_mkv();
    lemma_bytes_of_webm();
    lemma_bytes_of_aac();
    assert(!is_one_of(seq![0x61u8, 0x61u8, 0x63u8], image_extensions())) by {
        let names: Seq<&str> = image_extensions();
        assert forall|i: int| 0 <= i < names.len() implies names[i].spec_bytes() != seq![0x61u8, 0x61u8, 0x63u8] by {
            if i == 0 { assert(seq![0x61u8, 0x61u8, 0x63u8][0] != "png".spec_bytes()[0]); }
            if i == 1 { assert(seq![0x61u8, 0x61u8, 0x63u8][0] != "jpg".spec_bytes()[0]); }
            if i == 2 { assert(seq![0x61u8, 0x61u8, 0x63u8].len() != "jpeg".spec_bytes().len()); }
            if i == 3 { assert(seq![0x61u8, 0x61u8, 0x63u8][0] != "bmp".spec_bytes()[0]); }
            if i == 4 { assert(seq![0x61u8, 0x61u8, 0x63u8][0] != "tif".spec_bytes()[0]); }
            if i == 5 { assert(seq![0x61u8, 0x61u8, 0x63u8].len() != "tiff".spec_bytes().len()); }
            if i == 6 { assert(seq![0x61u8, 0x61u8, 0x63u8].len() != "webp".spec_bytes().len()); }
        }
    }
    assert(seq![0x61u8, 0x61u8, 0x63u8].len() != "apng".spec_bytes().len());
    assert(seq![0x61u8, 0x61u8, 0x63u8][0] != "gif".spec_bytes()[0]);
    assert(!is_one_of(seq![0x61u8, 0x61u8, 0x63u8], video_extensions())) by {
        let names: Seq<&str> = video_extensions();
        assert forall|i: int| 0 <= i < names.len() implies names[i].spec_bytes() != seq![0x61u8, 0x61u8, 0x63u8] by {
            if i == 0 { assert(seq![0x61u8, 0x61u8, 0x63u8][0] != "mp4".spec_bytes()[0]); }
            if i == 1 { assert(seq![0x61u8, 0x61u8, 0x63u8][0] != "mov".spec_bytes()[0]); }
            if i == 2 { assert(seq![0x61u8, 0x61u8, 0x63u8][1] != "avi".spec_bytes()[1]); }
            if i == 3 { assert(seq![0x61u8, 0x61u8, 0x63u8][0] != "mkv".spec_bytes()[0]); }
            if i == 4 { assert(seq![0x61u8, 0x61u8, 0x63u8].len() != "webm".spec_bytes().len()); }
        }
    }
    assert(audio_extensions()[3].spec_bytes() == seq![0x61u8, 0x61u8, 0x63u8]);
}

#[verifier::rlimit(100)]
proof fn lemma_extension_kind_m4a()
    ensures
        kind_from_extension(seq![0x6Du8, 0x34u8, 0x61u8]) == Some(FileKind::Audio),
{
    lemma_bytes_of_png();
    lemma_bytes_of_jpg();
    lemma_bytes_of_jpeg();
    lemma_bytes_of_bmp();
    lemma_bytes_of_tif();
    lemma_bytes_of_tiff();
    lemma_bytes_of_webp();
    lemma_bytes_of_apng();
    lemma_bytes_of_gif();
    lemma_bytes_of_mp4();
    lemma_bytes_of_mov();
    lemma_bytes_of_avi();
    lemma_bytes_of_mkv();
    lemma_bytes_of_webm();
    lemma_bytes_of_m4a();
    assert(!is_one_of(seq![0x6Du8, 0x34u8, 0x61u8], image_extensions())) by {
        let names: Seq<&str> = image_extensions();
        assert forall|i: int| 0 <= i < names.len() implies names[i].spec_bytes() != seq![0x6Du8, 0x34u8, 0x61u8] by {
            if i == 0 { assert(seq![0x6Du8, 0x34u8, 0x61u8][0] != "png".spec_bytes()[0]); }
            if i == 1 { assert(seq![0x6Du8, 0x34u8, 0x61u8][0] != "jpg".spec_bytes()[0]); }
            if i == 2 { assert(seq![0x6Du8, 0x34u8, 0x61u8].len() != "jpeg".spec_bytes().len()); }
            if i == 3 { assert(seq![0x6Du8, 0x34u8, 0x61u8][0] != "bmp".spec_bytes()[0]); }
            if i == 4 { assert(seq![0x6Du8, 0x34u8, 0x61u8][0] != "tif".spec_bytes()[0]); }
            if i == 5 { assert(seq![0x6Du8, 0x34u8, 0x61u8].len() != "tiff".spec_bytes().len()); }
            if i == 6 { assert(seq![0x6Du8, 0x34u8, 0x61u8].len() != "webp".spec_bytes().len()); }
        }
    }
    assert(seq![0x6Du8, 0x34u8, 0x61u8].len() != "apng".spec_bytes().len());
    assert(seq![0x6Du8, 0x34u8, 0x61u8][0] != "gif".spec_bytes()[0]);
    assert(!is_one_of(seq![0x6Du8, 0x34u8, 0x61u8], video_extensions())) by {
        let names: Seq<&str> = video_extensions();
        assert forall|i: int| 0 <= i < names.len() implies names[i].spec_bytes() != seq![0x6Du8, 0x34u8, 0x61u8] by {
            if i == 0 { assert(seq![0x6Du8, 0x34u8, 0x61u8][1] != "mp4".spec_bytes()[1]); }
            if i == 1 { assert(seq![0x6Du8, 0x34u8, 0x61u8][1] != "mov".spec_bytes()[1]); }
            if i == 2 { assert(seq![0x6Du8, 0x34u8, 0x61u8][0] != "avi".spec_bytes()[0]); }
            if i == 3 { assert(seq![0x6Du8, 0x34u8, 0x61u8][1] != "mkv".spec_bytes()[1]); }
            if i == 4 { assert(seq![0x6Du8, 0x34u8, 0x61u8].len() != "webm".spec_bytes().len()); }
        }
    }
    assert(audio_extensions()[4].spec_bytes() == seq![0x6Du8, 0x34u8, 0x61u8]);
}

#[verifier::rlimit(100)]
proof fn lemma_extension_kind_ogg()
    ensures
        kind_from_extension(seq![0x6Fu8, 0x67u8, 0x67u8]) == Some(FileKind::Audio),
{
    lemma_bytes_of_png();
    lemma_bytes_of_jpg();
    lemma_bytes_of_jpeg();
    lemma_bytes_of_bmp();
    lemma_bytes_of_tif();
    lemma_bytes_of_tiff();
    lemma_bytes_of_webp();
    lemma_bytes_of_apng();
    lemma_bytes_of_gif();
    lemma_bytes_of_mp4();
    lemma_bytes_of_mov();
    lemma_bytes_of_avi();
    lemma_bytes_of_mkv();
    lemma_bytes_of_webm();
    lemma_bytes_of_ogg();
    assert(!is_one_of(seq![0x6Fu8, 0x67u8, 0x67u8], image_extensions())) by {
        let names: Seq<&str> = image_extensions();
        assert forall|i: int| 0 <= i < names.len() implies names[i].spec_bytes() != seq![0x6Fu8, 0x67u8, 0x67u8] by {
            if i == 0 { assert(seq![0x6Fu8, 0x67u8, 0x67u8][0] != "png".spec_bytes()[0]); }
            if i == 1 { assert(seq![0x6Fu8, 0x67u8, 0x67u8][0] != "jpg".spec_bytes()[0]); }
            if i == 2 { assert(seq![0x6Fu8, 0x67u8, 0x67u8].len() != "jpeg".spec_bytes().len()); }
            if i == 3 { assert(seq![0x6Fu8, 0x67u8, 0x67u8][0] != "bmp".spec_bytes()[0]); }
            if i == 4 { assert(seq![0x6Fu8, 0x67u8, 0x67u8][0] != "tif".spec_bytes()[0]); }
            if i == 5 { assert(seq![0x6Fu8, 0x67u8, 0x67u8].len() != "tiff".spec_bytes().len()); }
            if i == 6 { assert(seq![0x6Fu8, 0x67u8, 0x67u8].len() != "webp".spec_bytes().len()); }
        }
    }
    assert(seq![0x6Fu8, 0x67u8, 0x67u8].len() != "apng".spec_bytes().len());
    assert(seq![0x6Fu8, 0x67u8, 0x67u8][0] != "gif".spec_bytes()[0]);
    assert(!is_one_of(seq![0x6Fu8, 0x67u8, 0x67u8], video_extensions())) by {
        let names: Seq<&str> = video_extensions();
        assert forall|i: int| 0 <= i < names.len() implies names[i].spec_bytes() != seq![0x6Fu8, 0x67u8, 0x67u8] by {
            if i == 0 { assert(seq![0x6Fu8, 0x67u8, 0x67u8][0] != "mp4".spec_bytes()[0]); }
            if i == 1 { assert(seq![0x6Fu8, 0x67u8, 0x67u8][0] != "mov".spec_bytes()[0]); }
            if i == 2 { assert(seq![0x6Fu8, 0x67u8, 0x67u8][0] != "avi".spec_bytes()[0]); }
            if i == 3 { assert(seq![0x6Fu8, 0x67u8, 0x67u8][0] != "mkv".spec_bytes()[0]); }
            if i == 4 { assert(seq![0x6Fu8, 0x67u8, 0x67u8].len() != "webm".spec_bytes().len()); }
        }
    }
    assert(audio_extensions()[5].spec_bytes() == seq![0x6Fu8, 0x67u8, 0x67u8]);
}

#[verifier::rlimit(100)]
proof fn lemma_extension_kind_oga()
    ensures
        kind_from_extension(seq![0x6Fu8, 0x67u8, 0x61u8]) == Some(FileKind::Audio),
{
    lemma_bytes_of_png();
    lemma_bytes_of_jpg();
    lemma_bytes_of_jpeg();
    lemma_bytes_of_bmp();
    lemma_bytes_of_tif();
    lemma_bytes_of_tiff();
    lemma_bytes_of_webp();
    lemma_bytes_of_apng();
    lemma_bytes_of_gif();
    lemma_bytes_of_mp4();
    lemma_bytes_of_mov();
    lemma_bytes_of_avi();
    lemma_bytes_of_mkv();
    lemma_bytes_of_webm();
    lemma_bytes_of_oga();
    assert(!is_one_of(seq![0x6Fu8, 0x67u8, 0x61u8], image_extensions())) by {
        let names: Seq<&str> = image_extensions();
        assert forall|i: int| 0 <= i < names.len() implies names[i].spec_bytes() != seq![0x6Fu8, 0x67u8, 0x61u8] by {
            if i == 0 { assert(seq![0x6Fu8, 0x67u8, 0x61u8][0] != "png".spec_bytes()[0]); }
            if i == 1 { assert(seq![0x6Fu8, 0x67u8, 0x61u8][0] != "jpg".spec_bytes()[0]); }
            if i == 2 { assert(seq![0x6Fu8, 0x67u8, 0x61u8].len() != "jpeg".spec_bytes().len()); }
            if i == 3 { assert(seq![0x6Fu8, 0x67u8, 0x61u8][0] != "bmp".spec_bytes()[0]); }
            if i == 4 { assert(seq![0x6Fu8, 0x67u8, 0x61u8][0] != "tif".spec_bytes()[0]); }
            if i == 5 { assert(seq![0x6Fu8, 0x67u8, 0x61u8].len() != "tiff".spec_bytes().len()); }
            if i == 6 { assert(seq![0x6Fu8, 0x67u8, 0x61u8].len() != "webp".spec_bytes().len()); }
        }
    }
    assert(seq![0x6Fu8, 0x67u8, 0x61u8].len() != "apng".spec_bytes().len());
    assert(seq![0x6Fu8, 0x67u8, 0x61u8][0] != "gif".spec_bytes()[0]);
    assert(!is_one_of(seq![0x6Fu8, 0x67u8, 0x61u8], video_extensions())) by {
        let names: Seq<&str> = video_extensions();
        assert forall|i: int| 0 <= i < names.len() implies names[i].spec_bytes() != seq![0x6Fu8, 0x67u8, 0x61u8] by {
            if i == 0 { assert(seq![0x6Fu8, 0x67u8, 0x61u8][0] != "mp4".spec_bytes()[0]); }
            if i == 1 { assert(seq![0x6Fu8, 0x67u8, 0x61u8][0] != "mov".spec_bytes()[0]); }
            if i == 2 { assert(seq![0x6Fu8, 0x67u8, 0x61u8][0] != "avi".spec_bytes()[0]); }
            if i == 3 { assert(seq![0x6Fu8, 0x67u8, 0x61u8][0] != "mkv".spec_bytes()[0]); }
            if i == 4 { assert(seq![0x6Fu8, 0x67u8, 0x61u8].len() != "webm".spec_bytes().len()); }
        }
    }
    assert(audio_extensions()[6].spec_bytes() == seq![0x6Fu8, 0x67u8, 0x61u8]);
}

#[verifier::rlimit(100)]
proof fn lemma_extension_kind_opus()
    ensures
        kind_from_extension(seq![0x6Fu8, 0x70u8, 0x75u8, 0x73u8]) == Some(FileKind::Audio),
{
    lemma_bytes_of_png();
    lemma_bytes_of_jpg();
    lemma_bytes_of_jpeg();
    lemma_bytes_of_bmp();
    lemma_bytes_of_tif();
    lemma_bytes_of_tiff();
    lemma_bytes_of_webp();
    lemma_bytes_of_apng();
    lemma_bytes_of_gif();
    lemma_bytes_of_mp4();
    lemma_bytes_of_mov();
    lemma_bytes_of_avi();
    lemma_bytes_of_mkv();
    lemma_bytes_of_webm();
    lemma_bytes_of_opus();
    assert(!is_one_of(seq![0x6Fu8, 0x70u8, 0x75u8, 0x73u8], image_extensions())) by {
        let names: Seq<&str> = image_extensions();
        assert forall|i: int| 0 <= i < names.len() implies names[i].spec_bytes() != seq![0x6Fu8, 0x70u8, 0x75u8, 0x73u8] by {
            if i == 0 { assert(seq![0x6Fu8, 0x70u8, 0x75u8, 0x73u8].len() != "png".spec_bytes().len()); }
            if i == 1 { assert(seq![0x6Fu8, 0x70u8, 0x75u8, 0x73u8].len() != "jpg".spec_bytes().len()); }
            if i == 2 { assert(seq![0x6Fu8, 0x70u8, 0x75u8, 0x73u8][0] != "jpeg".spec_bytes()[0]); }
            if i == 3 { assert(seq![0x6Fu8, 0x70u8, 0x75u8, 0x73u8].len() != "bmp".spec_bytes().len()); }
            if i == 4 { assert(seq![0x6Fu8, 0x70u8, 0x75u8, 0x73u8].len() != "tif".spec_bytes().len()); }
            if i == 5 { assert(seq![0x6Fu8, 0x70u8, 0x75u8, 0x73u8][0] != "tiff".spec_bytes()[0]); }
            if i == 6 { assert(seq![0x6Fu8, 0x70u8, 0x75u8, 0x73u8][0] != "webp".spec_bytes()[0]); }
        }
    }
    assert(seq![0x6Fu8, 0x70u8, 0x75u8, 0x73u8][0] != "apng".spec_bytes()[0]);
    assert(seq![0x6Fu8, 0x70u8, 0x75u8, 0x73u8].len() != "gif".spec_bytes().len());
    assert(!is_one_of(seq![0x6Fu8, 0x70u8, 0x75u8, 0x73u8], video_extensions())) by {
        let names: Seq<&str> = video_extensions();
        assert forall|i: int| 0 <= i < names.len() implies names[i].spec_bytes() != seq![0x6Fu8, 0x70u8, 0x75u8, 0x73u8] by {
            if i == 0 { assert(seq![0x6Fu8, 0x70u8, 0x75u8, 0x73u8].len() != "mp4".spec_bytes().len()); }
            if i == 1 { assert(seq![0x6Fu8, 0x70u8, 0x75u8, 0x73u8].len() != "mov".spec_bytes().len()); }
            if i == 2 { assert(seq![0x6Fu8, 0x70u8, 0x75u8, 0x73u8].len() != "avi".spec_bytes().len()); }
            if i == 3 { assert(seq![0x6Fu8, 0x70u8, 0x75u8, 0x73u8].len() != "mkv".spec_bytes().len()); }
            if i == 4 { assert(seq![0x6Fu8, 0x70u8, 0x75u8, 0x73u8][0] != "webm".spec_bytes()[0]); }
        }
    }
    assert(audio_extensions()[7].spec_bytes() == seq![0x6Fu8, 0x70u8, 0x75u8, 0x73u8]);
}

#[verifier::rlimit(100)]
proof fn lemma_extension_kind_wma()
    ensures
        kind_from_extension(seq![0x77u8, 0x6Du8, 0x61u8]) == Some(FileKind::Audio),
{
    lemma_bytes_of_png();
    lemma_bytes_of_jpg();
    lemma_bytes_of_jpeg();
    lemma_bytes_of_bmp();
    lemma_bytes_of_tif();
    lemma_bytes_of_tiff();
    lemma_bytes_of_webp();
    lemma_bytes_of_apng();
    lemma_bytes_of_gif();
    lemma_bytes_of_mp4();
    lemma_bytes_of_mov();
    lemma_bytes_of_avi();
    lemma_bytes_of_mkv();
    lemma_bytes_of_webm();
    lemma_bytes_of_wma();
    assert(!is_one_of(seq![0x77u8, 0x6Du8, 0x61u8], image_extensions())) by {
        let names: Seq<&str> = image_extensions();
        assert forall|i: int| 0 <= i < names.len() implies names[i].spec_bytes() != seq![0x77u8, 0x6Du8, 0x61u8] by {
            if i == 0 { assert(seq![0x77u8, 0x6Du8, 0x61u8][0] != "png".spec_bytes()[0]); }
            if i == 1 { assert(seq![0x77u8, 0x6Du8, 0x61u8][0] != "jpg".spec_bytes()[0]); }
            if i == 2 { assert(seq![0x77u8, 0x6Du8, 0x61u8].len() != "jpeg".spec_bytes().len()); }
            if i == 3 { assert(seq![0x77u8, 0x6Du8, 0x61u8][0] != "bmp".spec_bytes()[0]); }
            if i == 4 { assert(seq![0x77u8, 0x6Du8, 0x61u8][0] != "tif".spec_bytes()[0]); }
            if i == 5 { assert(seq![0x77u8, 0x6Du8, 0x61u8].len() != "tiff".spec_bytes().len()); }
            if i == 6 { assert(seq![0x77u8, 0x6Du8, 0x61u8].len() != "webp".spec_bytes().len()); }
        }
    }
    assert(seq![0x77u8, 0x6Du8, 0x61u8].len() != "apng".spec_bytes().len());
    assert(seq![0x77u8, 0x6Du8, 0x61u8][0] != "gif".spec_bytes()[0]);
    assert(!is_one_of(seq![0x77u8, 0x6Du8, 0x61u8], video_extensions())) by {
        let names: Seq<&str> = video_extensions();
        assert forall|i: int| 0 <= i < names.len() implies names[i].spec_bytes() != seq![0x77u8, 0x6Du8, 0x61u8] by {
            if i == 0 { assert(seq![0x77u8, 0x6Du8, 0x61u8][0] != "mp4".spec_bytes()[0]); }
            if i == 1 { assert(seq![0x77u8, 0x6Du8, 0x61u8][0] != "mov".spec_bytes()[0]); }
            if i == 2 { assert(seq![0x77u8, 0x6Du8, 0x61u8][0] != "avi".spec_bytes()[0]); }
            if i == 3 { assert(seq![0x77u8, 0x6Du8, 0x61u8][0] != "mkv".spec_bytes()[0]); }
            if i == 4 { assert(seq![0x77u8, 0x6Du8, 0x61u8].len() != "webm".spec_bytes().len()); }
        }
    }
    assert(audio_extensions()[8].spec_bytes() == seq![0x77u8, 0x6Du8, 0x61u8]);
}

#[verifier::rlimit(100)]
proof fn lemma_extension_kind_amr()
    ensures
        kind_from_extension(seq![0x61u8, 0x6Du8, 0x72u8]) == Some(FileKind::Audio),
{
    lemma_bytes_of_png();
    lemma_bytes_of_jpg();
    lemma_bytes_of_jpeg();
    lemma_bytes_of_bmp();
    lemma_bytes_of_tif();
    lemma_bytes_of_tiff();
    lemma_bytes_of_webp();
    lemma_bytes_of_apng();
    lemma_bytes_of_gif();
    lemma_bytes_of_mp4();
    lemma_bytes_of_mov();
    lemma_bytes_of_avi();
    lemma_bytes_of_mkv();
    lemma_bytes_of_webm();
    lemma_bytes_of_amr();
    assert(!is_one_of(seq![0x61u8, 0x6Du8, 0x72u8], image_extensions())) by {
        let names: Seq<&str> = image_extensions();
        assert forall|i: int| 0 <= i < names.len() implies names[i].spec_bytes() != seq![0x61u8, 0x6Du8, 0x72u8] by {
            if i == 0 { assert(seq![0x61u8, 0x6Du8, 0x72u8][0] != "png".spec_bytes()[0]); }
            if i == 1 { assert(seq![0x61u8, 0x6Du8, 0x72u8][0] != "jpg".spec_bytes()[0]); }
            if i == 2 { assert(seq![0x61u8, 0x6Du8, 0x72u8].len() != "jpeg".spec_bytes().len()); }
            if i == 3 { assert(seq![0x61u8, 0x6Du8, 0x72u8][0] != "bmp".spec_bytes()[0]); }
            if i == 4 { assert(seq![0x61u8, 0x6Du8, 0x72u8][0] != "tif".spec_bytes()[0]); }
            if i == 5 { assert(seq![0x61u8, 0x6Du8, 0x72u8].len() != "tiff".spec_bytes().len()); }
            if i == 6 { assert(seq![0x61u8, 0x6Du8, 0x72u8].len() != "webp".spec_bytes().len()); }
        }
    }
    assert(seq![0x61u8, 0x6Du8, 0x72u8].len() != "apng".spec_bytes().len());
    assert(seq![0x61u8, 0x6Du8, 0x72u8][0] != "gif".spec_bytes()[0]);
    assert(!is_one_of(seq![0x61u8, 0x6Du8, 0x72u8], video_extensions())) by {
        let names: Seq<&str> = video_extensions();
        assert forall|i: int| 0 <= i < names.len() implies names[i].spec_bytes() != seq![0x61u8, 0x6Du8, 0x72u8] by {
            if i == 0 { assert(seq![0x61u8, 0x6Du8, 0x72u8][0] != "mp4".spec_bytes()[0]); }
            if i == 1 { assert(seq![0x61u8, 0x6Du8, 0x72u8][0] != "mov".spec_bytes()[0]); }
            if i == 2 { assert(seq![0x61u8, 0x6Du8, 0x72u8][1] != "avi".spec_bytes()[1]); }
            if i == 3 { assert(seq![0x61u8, 0x6Du8, 0x72u8][0] != "mkv".spec_bytes()[0]); }
            if i == 4 { assert(seq![0x61u8, 0x6Du8, 0x72u8].len() != "webm".spec_bytes().len()); }
        }
    }
    assert(audio_extensions()[9].spec_bytes() == seq![0x61u8, 0x6Du8, 0x72u8]);
}

#[verifier::rlimit(100)]
proof fn lemma_extension_kind_aiff()
    ensures
        kind_from_extension(seq![0x61u8, 0x69u8, 0x66u8, 0x66u8]) == Some(FileKind::Audio),
{
    lemma_bytes_of_png();
    lemma_bytes_of_jpg();
    lemma_bytes_of_jpeg();
    lemma_bytes_of_bmp();
    lemma_bytes_of_tif();
    lemma_bytes_of_tiff();
    lemma_bytes_of_webp();
    lemma_bytes_of_apng();
    lemma_bytes_of_gif();
    lemma_bytes_of_mp4();
    lemma_bytes_of_mov();
    lemma_bytes_of_avi();
    lemma_bytes_of_mkv();
    lemma_bytes_of_webm();
    lemma_bytes_of_aiff();
    assert(!is_one_of(seq![0x61u8, 0x69u8, 0x66u8, 0x66u8], image_extensions())) by {
        let names: Seq<&str> = image_extensions();
        assert forall|i: int| 0 <= i < names.len() implies names[i].spec_bytes() != seq![0x61u8, 0x69u8, 0x66u8, 0x66u8] by {
            if i == 0 { assert(seq![0x61u8, 0x69u8, 0x66u8, 0x66u8].len() != "png".spec_bytes().len()); }
            if i == 1 { assert(seq![0x61u8, 0x69u8, 0x66u8, 0x66u8].len() != "jpg".spec_bytes().len()); }
            if i == 2 { assert(seq![0x61u8, 0x69u8, 0x66u8, 0x66u8][0] != "jpeg".spec_bytes()[0]); }
            if i == 3 { assert(seq![0x61u8, 0x69u8, 0x66u8, 0x66u8].len() != "bmp".spec_bytes().len()); }
            if i == 4 { assert(seq![0x61u8, 0x69u8, 0x66u8, 0x66u8].len() != "tif".spec_bytes().len()); }
            if i == 5 { assert(seq![0x61u8, 0x69u8, 0x66u8, 0x66u8][0] != "tiff".spec_bytes()[0]); }
            if i == 6 { assert(seq![0x61u8, 0x69u8, 0x66u8, 0x66u8][0] != "webp".spec_bytes()[0]); }
        }
    }
    assert(seq![0x61u8, 0x69u8, 0x66u8, 0x66u8][1] != "apng".spec_bytes()[1]);
    assert(seq![0x61u8, 0x69u8, 0x66u8, 0x66u8].len() != "gif".spec_bytes().len());
    assert(!is_one_of(seq![0x61u8, 0x69u8, 0x66u8, 0x66u8], video_extensions())) by {
        let names: Seq<&str> = video_extensions();
        assert forall|i: int| 0 <= i < names.len() implies names[i].spec_bytes() != seq![0x61u8, 0x69u8, 0x66u8, 0x66u8] by {
            if i == 0 { assert(seq![0x61u8, 0x69u8, 0x66u8, 0x66u8].len() != "mp4".spec_bytes().len()); }
            if i == 1 { assert(seq![0x61u8, 0x69u8, 0x66u8, 0x66u8].len() != "mov".spec_bytes().len()); }
            if i == 2 { assert(seq![0x61u8, 0x69u8, 0x66u8, 0x66u8].len() != "avi".spec_bytes().len()); }
            if i == 3 { assert(seq![0x61u8, 0x69u8, 0x66u8, 0x66u8].len() != "mkv".spec_bytes().len()); }
            if i == 4 { assert(seq![0x61u8, 0x69u8, 0x66u8, 0x66u8][0] != "webm".spec_bytes()[0]); }
        }
    }
    assert(audio_extensions()[10].spec_bytes() == seq![0x61u8, 0x69u8, 0x66u8, 0x66u8]);
}

#[verifier::rlimit(100)]
proof fn lemma_extension_kind_alac()
    ensures
        kind_from_extension(seq![0x61u8, 0x6Cu8, 0x61u8, 0x63u8]) == Some(FileKind::Audio),
{
    lemma_bytes_of_png();
    lemma_bytes_of_jpg();
    lemma_bytes_of_jpeg();
    lemma_bytes_of_bmp();
    lemma_bytes_of_tif();
    lemma_bytes_of_tiff();
    lemma_bytes_of_webp();
    lemma_bytes_of_apng();
    lemma_bytes_of_gif();
    lemma_bytes_of_mp4();
    lemma_bytes_of_mov();
    lemma_bytes_of_avi();
    lemma_bytes_of_mkv();
    lemma_bytes_of_webm();
    lemma_bytes_of_alac();
    assert(!is_one_of(seq![0x61u8, 0x6Cu8, 0x61u8, 0x63u8], image_extensions())) by {
        let names: Seq<&str> = image_extensions();
        assert forall|i: int| 0 <= i < names.len() implies names[i].spec_bytes() != seq![0x61u8, 0x6Cu8, 0x61u8, 0x63u8] by {
            if i == 0 { assert(seq![0x61u8, 0x6Cu8, 0x61u8, 0x63u8].len() != "png".spec_bytes().len()); }
            if i == 1 { assert(seq![0x61u8, 0x6Cu8, 0x61u8, 0x63u8].len() != "jpg".spec_bytes().len()); }
            if i == 2 { assert(seq![0x61u8, 0x6Cu8, 0x61u8, 0x63u8][0] != "jpeg".spec_bytes()[0]); }
            if i == 3 { assert(seq![0x61u8, 0x6Cu8, 0x61u8, 0x63u8].len() != "bmp".spec_bytes().len()); }
            if i == 4 { assert(seq![0x61u8, 0x6Cu8, 0x61u8, 0x63u8].len() != "tif".spec_bytes().len()); }
            if i == 5 { assert(seq![0x61u8, 0x6Cu8, 0x61u8, 0x63u8][0] != "tiff".spec_bytes()[0]); }
            if i == 6 { assert(seq![0x61u8, 0x6Cu8, 0x61u8, 0x63u8][0] != "webp".spec_bytes()[0]); }
        }
    }
    assert(seq![0x61u8, 0x6Cu8, 0x61u8, 0x63u8][1] != "apng".spec_bytes()[1]);
    assert(seq![0x61u8, 0x6Cu8, 0x61u8, 0x63u8].len() != "gif".spec_bytes().len());
    assert(!is_one_of(seq![0x61u8, 0x6Cu8, 0x61u8, 0x63u8], video_extensions())) by {
        let names: Seq<&str> = video_extensions();
        assert forall|i: int| 0 <= i < names.len() implies names[i].spec_bytes() != seq![0x61u8, 0x6Cu8, 0x61u8, 0x63u8] by {
            if i == 0 { assert(seq![0x61u8, 0x6Cu8, 0x61u8, 0x63u8].len() != "mp4".spec_bytes().len()); }
            if i == 1 { assert(seq![0x61u8, 0x6Cu8, 0x61u8, 0x63u8].len() != "mov".spec_bytes().len()); }
            if i == 2 { assert(seq![0x61u8, 0x6Cu8, 0x61u8, 0x63u8].len() != "avi".spec_bytes().len()); }
            if i == 3 { assert(seq![0x61u8, 0x6Cu8, 0x61u8, 0x63u8].len() != "mkv".spec_bytes().len()); }
            if i == 4 { assert(seq![0x61u8, 0x6Cu8, 0x61u8, 0x63u8][0] != "webm".spec_bytes()[0]); }
        }
    }
    assert(audio_extensions()[11].spec_bytes() == seq![0x61u8, 0x6Cu8, 0x61u8, 0x63u8]);
}

#[verifier::rlimit(100)]
proof fn lemma_extension_kind_pdf()
    ensures
        kind_from_extension(seq![0x70u8, 0x64u8, 0x66u8]) == Some(FileKind::Other),
{
    lemma_bytes_of_png();
    lemma_bytes_of_jpg();
    lemma_bytes_of_jpeg();
    lemma_bytes_of_bmp();
    lemma_bytes_of_tif();
    lemma_bytes_of_tiff();
    lemma_bytes_of_webp();
    lemma_bytes_of_apng();
    lemma_bytes_of_gif();
    lemma_bytes_of_mp4();
    lemma_bytes_of_mov();
    lemma_bytes_of_avi();
    lemma_bytes_of_mkv();
    lemma_bytes_of_webm();
    lemma_bytes_of_mp3();
    lemma_bytes_of_wav();
    lemma_bytes_of_flac();
    lemma_bytes_of_aac();
    lemma_bytes_of_m4a();
    lemma_bytes_of_ogg();
    lemma_bytes_of_oga();
    lemma_bytes_of_opus();
    lemma_bytes_of_wma();
    lemma_bytes_of_amr();
    lemma_bytes_of_aiff();
    lemma_bytes_of_alac();
    lemma_bytes_of_pdf();
    assert(!is_one_of(seq![0x70u8, 0x64u8, 0x66u8], image_extensions())) by {
        let names: Seq<&str> = image_extensions();
        assert forall|i: int| 0 <= i < names.len() implies names[i].spec_bytes() != seq![0x70u8, 0x64u8, 0x66u8] by {
            if i == 0 { assert(seq![0x70u8, 0x64u8, 0x66u8][1] != "png".spec_bytes()[1]); }
            if i == 1 { assert(seq![0x70u8, 0x64u8, 0x66u8][0] != "jpg".spec_bytes()[0]); }
            if i == 2 { assert(seq![0x70u8, 0x64u8, 0x66u8].len() != "jpeg".spec_bytes().len()); }
            if i == 3 { assert(seq![0x70u8, 0x64u8, 0x66u8][0] != "bmp".spec_bytes()[0]); }
            if i == 4 { assert(seq![0x70u8, 0x64u8, 0x66u8][0] != "tif".spec_bytes()[0]); }
            if i == 5 { assert(seq![0x70u8, 0x64u8, 0x66u8].len() != "tiff".spec_bytes().len()); }
            if i == 6 { assert(seq![0x70u8, 0x64u8, 0x66u8].len() != "webp".spec_bytes().len()); }
        }
    }
    assert(seq![0x70u8, 0x64u8, 0x66u8].len() != "apng".spec_bytes().len());
    assert(seq![0x70u8, 0x64u8, 0x66u8][0] != "gif".spec_bytes()[0]);
    assert(!is_one_of(seq![0x70u8, 0x64u8, 0x66u8], video_extensions())) by {
        let names: Seq<&str> = video_extensions();
        assert forall|i: int| 0 <= i < names.len() implies names[i].spec_bytes() != seq![0x70u8, 0x64u8, 0x66u8] by {
            if i == 0 { assert(seq![0x70u8, 0x64u8, 0x66u8][0] != "mp4".spec_bytes()[0]); }
            if i == 1 { assert(seq![0x70u8, 0x64u8, 0x66u8][0] != "mov".spec_bytes()[0]); }
            if i == 2 { assert(seq![0x70u8, 0x64u8, 0x66u8][0] != "avi".spec_bytes()[0]); }
            if i == 3 { assert(seq![0x70u8, 0x64u8, 0x66u8][0] != "mkv".spec_bytes()[0]); }
            if i == 4 { assert(seq![0x70u8, 0x64u8, 0x66u8].len() != "webm".spec_bytes().len()); }
        }
    }
    assert(!is_one_of(seq![0x70u8, 0x64u8, 0x66u8], audio_extensions())) by {
        let names: Seq<&str> = audio_extensions();
        assert forall|i: int| 0 <= i < names.len() implies names[i].spec_bytes() != seq![0x70u8, 0x64u8, 0x66u8] by {
            if i == 0 { assert(seq![0x70u8, 0x64u8, 0x66u8][0] != "mp3".spec_bytes()[0]); }
            if i == 1 { assert(seq![0x70u8, 0x64u8, 0x66u8][0] != "wav".spec_bytes()[0]); }
            if i == 2 { assert(seq![0x70u8, 0x64u8, 0x66u8].len() != "flac".spec_bytes().len()); }
            if i == 3 { assert(seq![0x70u8, 0x64u8, 0x66u8][0] != "aac".spec_bytes()[0]); }
            if i == 4 { assert(seq![0x70u8, 0x64u8, 0x66u8][0] != "m4a".spec_bytes()[0]); }
            if i == 5 { assert(seq![0x70u8, 0x64u8, 0x66u8][0] != "ogg".spec_bytes()[0]); }
            if i == 6 { assert(seq![0x70u8, 0x64u8, 0x66u8][0] != "oga".spec_bytes()[0]); }
            if i == 7 { assert(seq![0x70u8, 0x64u8, 0x66u8].len() != "opus".spec_bytes().len()); }
            if i == 8 { assert(seq![0x70u8, 0x64u8, 0x66u8][0] != "wma".spec_bytes()[0]); }
            if i == 9 { assert(seq![0x70u8, 0x64u8, 0x66u8][0] != "amr".spec_bytes()[0]); }
            if i == 10 { assert(seq![0x70u8, 0x64u8, 0x66u8].len() != "aiff".spec_bytes().len()); }
            if i == 11 { assert(seq![0x70u8, 0x64u8, 0x66u8].len() != "alac".spec_bytes().len()); }
        }
    }
    assert(other_extensions()[0].spec_bytes() == seq![0x70u8, 0x64u8, 0x66u8]);
}

#[verifier::rlimit(100)]
proof fn lemma_extension_kind_txt()
    ensures
        kind_from_extension(seq![0x74u8, 0x78u8, 0x74u8]) == Some(FileKind::Other),
{
    lemma_bytes_of_png();
    lemma_bytes_of_jpg();
    lemma_bytes_of_jpeg();
    lemma_bytes_of_bmp();
    lemma_bytes_of_tif();
    lemma_bytes_of_tiff();
    lemma_bytes_of_webp();
    lemma_bytes_of_apng();
    lemma_bytes_of_gif();
    lemma_bytes_of_mp4();
    lemma_bytes_of_mov();
    lemma_bytes_of_avi();
    lemma_bytes_of_mkv();
    lemma_bytes_of_webm();
    lemma_bytes_of_mp3();
    lemma_bytes_of_wav();
    lemma_bytes_of_flac();
    lemma_bytes_of_aac();
    lemma_bytes_of_m4a();
    lemma_bytes_of_ogg();
    lemma_bytes_of_oga();
    lemma_bytes_of_opus();
    lemma_bytes_of_wma();
    lemma_bytes_of_amr();
    lemma_bytes_of_aiff();
    lemma_bytes_of_alac();
    lemma_bytes_of_txt();
    assert(!is_one_of(seq![0x74u8, 0x78u8, 0x74u8], image_extensions())) by {
        let names: Seq<&str> = image_extensions();
        assert forall|i: int| 0 <= i < names.len() implies names[i].spec_bytes() != seq![0x74u8, 0x78u8, 0x74u8] by {
            if i == 0 { assert(seq![0x74u8, 0x78u8, 0x74u8][0] != "png".spec_bytes()[0]); }
            if i == 1 { assert(seq![0x74u8, 0x78u8, 0x74u8][0] != "jpg".spec_bytes()[0]); }
            if i == 2 { assert(seq![0x74u8, 0x78u8, 0x74u8].len() != "jpeg".spec_bytes().len()); }
            if i == 3 { assert(seq![0x74u8, 0x78u8, 0x74u8][0] != "bmp".spec_bytes()[0]); }
            if i == 4 { assert(seq![0x74u8, 0x78u8, 0x74u8][1] != "tif".spec_bytes()[1]); }
            if i == 5 { assert(seq![0x74u8, 0x78u8, 0x74u8].len() != "tiff".spec_bytes().len()); }
            if i == 6 { assert(seq![0x74u8, 0x78u8, 0x74u8].len() != "webp".spec_bytes().len()); }
        }
    }
    assert(seq![0x74u8, 0x78u8, 0x74u8].len() != "apng".spec_bytes().len());
    assert(seq![0x74u8, 0x78u8, 0x74u8][0] != "gif".spec_bytes()[0]);
    assert(!is_one_of(seq![0x74u8, 0x78u8, 0x74u8], video_extensions())) by {
        let names: Seq<&str> = video_extensions();
        assert forall|i: int| 0 <= i < names.len() implies names[i].spec_bytes() != seq![0x74u8, 0x78u8, 0x74u8] by {
            if i == 0 { assert(seq![0x74u8, 0x78u8, 0x74u8][0] != "mp4".spec_bytes()[0]); }
            if i == 1 { assert(seq![0x74u8, 0x78u8, 0x74u8][0] != "mov".spec_bytes()[0]); }
            if i == 2 { assert(seq![0x74u8, 0x78u8, 0x74u8][0] != "avi".spec_bytes()[0]); }
            if i == 3 { assert(seq![0x74u8, 0x78u8, 0x74u8][0] != "mkv".spec_bytes()[0]); }
            if i == 4 { assert(seq![0x74u8, 0x78u8, 0x74u8].len() != "webm".spec_bytes().len()); }
        }
    }
    assert(!is_one_of(seq![0x74u8, 0x78u8, 0x74u8], audio_extensions())) by {
        let names: Seq<&str> = audio_extensions();
        assert forall|i: int| 0 <= i < names.len() implies names[i].spec_bytes() != seq![0x74u8, 0x78u8, 0x74u8] by {
            if i == 0 { assert(seq![0x74u8, 0x78u8, 0x74u8][0] != "mp3".spec_bytes()[0]); }
            if i == 1 { assert(seq![0x74u8, 0x78u8, 0x74u8][0] != "wav".spec_bytes()[0]); }
            if i == 2 { assert(seq![0x74u8, 0x78u8, 0x74u8].len() != "flac".spec_bytes().len()); }
            if i == 3 { assert(seq![0x74u8, 0x78u8, 0x74u8][0] != "aac".spec_bytes()[0]); }
            if i == 4 { assert(seq![0x74u8, 0x78u8, 0x74u8][0] != "m4a".spec_bytes()[0]); }
            if i == 5 { assert(seq![0x74u8, 0x78u8, 0x74u8][0] != "ogg".spec_bytes()[0]); }
            if i == 6 { assert(seq![0x74u8, 0x78u8, 0x74u8][0] != "oga".spec_bytes()[0]); }
            if i == 7 { assert(seq![0x74u8, 0x78u8, 0x74u8].len() != "opus".spec_bytes().len()); }
            if i == 8 { assert(seq![0x74u8, 0x78u8, 0x74u8][0] != "wma".spec_bytes()[0]); }
            if i == 9 { assert(seq![0x74u8, 0x78u8, 0x74u8][0] != "amr".spec_bytes()[0]); }
            if i == 10 { assert(seq![0x74u8, 0x78u8, 0x74u8].len() != "aiff".spec_bytes().len()); }
            if i == 11 { assert(seq![0x74u8, 0x78u8, 0x74u8].len() != "alac".spec_bytes().len()); }
        }
    }
    assert(other_extensions()[1].spec_bytes() == seq![0x74u8, 0x78u8, 0x74u8]);
}

#[verifier::rlimit(100)]
proof fn lemma_extension_kind_csv()
    ensures
        kind_from_extension(seq![0x63u8, 0x73u8, 0x76u8]) == Some(FileKind::Other),
{
    lemma_bytes_of_png();
    lemma_bytes_of_jpg();
    lemma_bytes_of_jpeg();
    lemma_bytes_of_bmp();
    lemma_bytes_of_tif();
    lemma_bytes_of_tiff();
    lemma_bytes_of_webp();
    lemma_bytes_of_apng();
    lemma_bytes_of_gif();
    lemma_bytes_of_mp4();
    lemma_bytes_of_mov();
    lemma_bytes_of_avi();
    lemma_bytes_of_mkv();
    lemma_bytes_of_webm();
    lemma_bytes_of_mp3();
    lemma_bytes_of_wav();
    lemma_bytes_of_flac();
    lemma_bytes_of_aac();
    lemma_bytes_of_m4a();
    lemma_bytes_of_ogg();
    lemma_bytes_of_oga();
    lemma_bytes_of_opus();
    lemma_bytes_of_wma();
    lemma_bytes_of_amr();
    lemma_bytes_of_aiff();
    lemma_bytes_of_alac();
    lemma_bytes_of_csv();
    assert(!is_one_of(seq![0x63u8, 0x73u8, 0x76u8], image_extensions())) by {
        let names: Seq<&str> = image_extensions();
        assert forall|i: int| 0 <= i < names.len() implies names[i].spec_bytes() != seq![0x63u8, 0x73u8, 0x76u8] by {
            if i == 0 { assert(seq![0x63u8, 0x73u8, 0x76u8][0] != "png".spec_bytes()[0]); }
            if i == 1 { assert(seq![0x63u8, 0x73u8, 0x76u8][0] != "jpg".spec_bytes()[0]); }
            if i == 2 { assert(seq![0x63u8, 0x73u8, 0x76u8].len() != "jpeg".spec_bytes().len()); }
            if i == 3 { assert(seq![0x63u8, 0x73u8, 0x76u8][0] != "bmp".spec_bytes()[0]); }
            if i == 4 { assert(seq![0x63u8, 0x73u8, 0x76u8][0] != "tif".spec_bytes()[0]); }
            if i == 5 { assert(seq![0x63u8, 0x73u8, 0x76u8].len() != "tiff".spec_bytes().len()); }
            if i == 6 { assert(seq![0x63u8, 0x73u8, 0x76u8].len() != "webp".spec_bytes().len()); }
        }
    }
    assert(seq![0x63u8, 0x73u8, 0x76u8].len() != "apng".spec_bytes().len());
    assert(seq![0x63u8, 0x73u8, 0x76u8][0] != "gif".spec_bytes()[0]);
    assert(!is_one_of(seq![0x63u8, 0x73u8, 0x76u8], video_extensions())) by {
        let names: Seq<&str> = video_extensions();
        assert forall|i: int| 0 <= i < names.len() implies names[i].spec_bytes() != seq![0x63u8, 0x73u8, 0x76u8] by {
            if i == 0 { assert(seq![0x63u8, 0x73u8, 0x76u8][0] != "mp4".spec_bytes()[0]); }
            if i == 1 { assert(seq![0x63u8, 0x73u8, 0x76u8][0] != "mov".spec_bytes()[0]); }
            if i == 2 { assert(seq![0x63u8, 0x73u8, 0x76u8][0] != "avi".spec_bytes()[0]); }
            if i == 3 { assert(seq![0x63u8, 0x73u8, 0x76u8][0] != "mkv".spec_bytes()[0]); }
            if i == 4 { assert(seq![0x63u8, 0x73u8, 0x76u8].len() != "webm".spec_bytes().len()); }
        }
    }
    assert(!is_one_of(seq![0x63u8, 0x73u8, 0x76u8], audio_extensions())) by {
        let names: Seq<&str> = audio_extensions();
        assert forall|i: int| 0 <= i < names.len() implies names[i].spec_bytes() != seq![0x63u8, 0x73u8, 0x76u8] by {
            if i == 0 { assert(seq![0x63u8, 0x73u8, 0x76u8][0] != "mp3".spec_bytes()[0]); }
            if i == 1 { assert(seq![0x63u8, 0x73u8, 0x76u8][0] != "wav".spec_bytes()[0]); }
            if i == 2 { assert(seq![0x63u8, 0x73u8, 0x76u8].len() != "flac".spec_bytes().len()); }
            if i == 3 { assert(seq![0x63u8, 0x73u8, 0x76u8][0] != "aac".spec_bytes()[0]); }
            if i == 4 { assert(seq![0x63u8, 0x73u8, 0x76u8][0] != "m4a".spec_bytes()[0]); }
            if i == 5 { assert(seq![0x63u8, 0x73u8, 0x76u8][0] != "ogg".spec_bytes()[0]); }
            if i == 6 { assert(seq![0x63u8, 0x73u8, 0x76u8][0] != "oga".spec_bytes()[0]); }
            if i == 7 { assert(seq![0x63u8, 0x73u8, 0x76u8].len() != "opus".spec_bytes().len()); }
            if i == 8 { assert(seq![0x63u8, 0x73u8, 0x76u8][0] != "wma".spec_bytes()[0]); }
            if i == 9 { assert(seq![0x63u8, 0x73u8, 0x76u8][0] != "amr".spec_bytes()[0]); }
            if i == 10 { assert(seq![0x63u8, 0x73u8, 0x76u8].len() != "aiff".spec_bytes().len()); }
            if i == 11 { assert(seq![0x63u8, 0x73u8, 0x76u8].len() != "alac".spec_bytes().len()); }
        }
    }
    assert(other_extensions()[2].spec_bytes() == seq![0x63u8, 0x73u8, 0x76u8]);
}

#[verifier::rlimit(100)]
proof fn lemma_extension_kind_json()
    ensures
        kind_from_extension(seq![0x6Au8, 0x73u8, 0x6Fu8, 0x6Eu8]) == Some(FileKind::Other),
{
    lemma_bytes_of_png();
    lemma_bytes_of_jpg();
    lemma_bytes_of_jpeg();
    lemma_bytes_of_bmp();
    lemma_bytes_of_tif();
    lemma_bytes_of_tiff();
    lemma_bytes_of_webp();
    lemma_bytes_of_apng();
    lemma_bytes_of_gif();
    lemma_bytes_of_mp4();
    lemma_bytes_of_mov();
    lemma_bytes_of_avi();
    lemma_bytes_of_mkv();
    lemma_bytes_of_webm();
    lemma_bytes_of_mp3();
    lemma_bytes_of_wav();
    lemma_bytes_of_flac();
    lemma_bytes_of_aac();
    lemma_bytes_of_m4a();
    lemma_bytes_of_ogg();
    lemma_bytes_of_oga();
    lemma_bytes_of_opus();
    lemma_bytes_of_wma();
    lemma_bytes_of_amr();
    lemma_bytes_of_aiff();
    lemma_bytes_of_alac();
    lemma_bytes_of_json();
    assert(!is_one_of(seq![0x6Au8, 0x73u8, 0x6Fu8, 0x6Eu8], image_extensions())) by {
        let names: Seq<&str> = image_extensions();
        assert forall|i: int| 0 <= i < names.len() implies names[i].spec_bytes() != seq![0x6Au8, 0x73u8, 0x6Fu8, 0x6Eu8] by {
            if i == 0 { assert(seq![0x6Au8, 0x73u8, 0x6Fu8, 0x6Eu8].len() != "png".spec_bytes().len()); }
            if i == 1 { assert(seq![0x6Au8, 0x73u8, 0x6Fu8, 0x6Eu8].len() != "jpg".spec_bytes().len()); }
            if i == 2 { assert(seq![0x6Au8, 0x73u8, 0x6Fu8, 0x6Eu8][1] != "jpeg".spec_bytes()[1]); }
            if i == 3 { assert(seq![0x6Au8, 0x73u8, 0x6Fu8, 0x6Eu8].len() != "bmp".spec_bytes().len()); }
            if i == 4 { assert(seq![0x6Au8, 0x73u8, 0x6Fu8, 0x6Eu8].len() != "tif".spec_bytes().len()); }
            if i == 5 { assert(seq![0x6Au8, 0x73u8, 0x6Fu8, 0x6Eu8][0] != "tiff".spec_bytes()[0]); }
            if i == 6 { assert(seq![0x6Au8, 0x73u8, 0x6Fu8, 0x6Eu8][0] != "webp".spec_bytes()[0]); }
        }
    }
    assert(seq![0x6Au8, 0x73u8, 0x6Fu8, 0x6Eu8][0] != "apng".spec_bytes()[0]);
    assert(seq![0x6Au8, 0x73u8, 0x6Fu8, 0x6Eu8].len() != "gif".spec_bytes().len());
    assert(!is_one_of(seq![0x6Au8, 0x73u8, 0x6Fu8, 0x6Eu8], video_extensions())) by {
        let names: Seq<&str> = video_extensions();
        assert forall|i: int| 0 <= i < names.len() implies names[i].spec_bytes() != seq![0x6Au8, 0x73u8, 0x6Fu8, 0x6Eu8] by {
            if i == 0 { assert(seq![0x6Au8, 0x73u8, 0x6Fu8, 0x6Eu8].len() != "mp4".spec_bytes().len()); }
            if i == 1 { assert(seq![0x6Au8, 0x73u8, 0x6Fu8, 0x6Eu8].len() != "mov".spec_bytes().len()); }
            if i == 2 { assert(seq![0x6Au8, 0x73u8, 0x6Fu8, 0x6Eu8].len() != "avi".spec_bytes().len()); }
            if i == 3 { assert(seq![0x6Au8, 0x73u8, 0x6Fu8, 0x6Eu8].len() != "mkv".spec_bytes().len()); }
            if i == 4 { assert(seq![0x6Au8, 0x73u8, 0x6Fu8, 0x6Eu8][0] != "webm".spec_bytes()[0]); }
        }
    }
    assert(!is_one_of(seq![0x6Au8, 0x73u8, 0x6Fu8, 0x6Eu8], audio_extensions())) by {
        let names: Seq<&str> = audio_extensions();
        assert forall|i: int| 0 <= i < names.len() implies names[i].spec_bytes() != seq![0x6Au8, 0x73u8, 0x6Fu8, 0x6Eu8] by {
            if i == 0 { assert(seq![0x6Au8, 0x73u8, 0x6Fu8, 0x6Eu8].len() != "mp3".spec_bytes().len()); }
            if i == 1 { assert(seq![0x6Au8, 0x73u8, 0x6Fu8, 0x6Eu8].len() != "wav".spec_bytes().len()); }
            if i == 2 { assert(seq![0x6Au8, 0x73u8, 0x6Fu8, 0x6Eu8][0] != "flac".spec_bytes()[0]); }
            if i == 3 { assert(seq![0x6Au8, 0x73u8, 0x6Fu8, 0x6Eu8].len() != "aac".spec_bytes().len()); }
            if i == 4 { assert(seq![0x6Au8, 0x73u8, 0x6Fu8, 0x6Eu8].len() != "m4a".spec_bytes().len()); }
            if i == 5 { assert(seq![0x6Au8, 0x73u8, 0x6Fu8, 0x6Eu8].len() != "ogg".spec_bytes().len()); }
            if i == 6 { assert(seq![0x6Au8, 0x73u8, 0x6Fu8, 0x6Eu8].len() != "oga".spec_bytes().len()); }
            if i == 7 { assert(seq![0x6Au8, 0x73u8, 0x6Fu8, 0x6Eu8][0] != "opus".spec_bytes()[0]); }
            if i == 8 { assert(seq![0x6Au8, 0x73u8, 0x6Fu8, 0x6Eu8].len() != "wma".spec_bytes().len()); }
            if i == 9 { assert(seq![0x6Au8, 0x73u8, 0x6Fu8, 0x6Eu8].len() != "amr".spec_bytes().len()); }
            if i == 10 { assert(seq![0x6Au8, 0x73u8, 0x6Fu8, 0x6Eu8][0] != "aiff".spec_bytes()[0]); }
            if i == 11 { assert(seq![0x6Au8, 0x73u8, 0x6Fu8, 0x6Eu8][0] != "alac".spec_bytes()[0]); }
        }
    }
    assert(other_extensions()[3].spec_bytes() == seq![0x6Au8, 0x73u8, 0x6Fu8, 0x6Eu8]);
}

#[verifier::rlimit(100)]
proof fn lemma_extension_kind_xml()
    ensures
        kind_from_extension(seq![0x78u8, 0x6Du8, 0x6Cu8]) == Some(FileKind::Other),
{
    lemma_bytes_of_png();
    lemma_bytes_of_jpg();
    lemma_bytes_of_jpeg();
    lemma_bytes_of_bmp();
    lemma_bytes_of_tif();
    lemma_bytes_of_tiff();
    lemma_bytes_of_webp();
    lemma_bytes_of_apng();
    lemma_bytes_of_gif();
    lemma_bytes_of_mp4();
    lemma_bytes_of_mov();
    lemma_bytes_of_avi();
    lemma_bytes_of_mkv();
    lemma_bytes_of_webm();
    lemma_bytes_of_mp3();
    lemma_bytes_of_wav();
    lemma_bytes_of_flac();
    lemma_bytes_of_aac();
    lemma_bytes_of_m4a();
    lemma_bytes_of_ogg();
    lemma_bytes_of_oga();
    lemma_bytes_of_opus();
    lemma_bytes_of_wma();
    lemma_bytes_of_amr();
    lemma_bytes_of_aiff();
    lemma_bytes_of_alac();
    lemma_bytes_of_xml();
    assert(!is_one_of(seq![0x78u8, 0x6Du8, 0x6Cu8], image_extensions())) by {
        let names: Seq<&str> = image_extensions();
        assert forall|i: int| 0 <= i < names.len() implies names[i].spec_bytes() != seq![0x78u8, 0x6Du8, 0x6Cu8] by {
            if i == 0 { assert(seq![0x78u8, 0x6Du8, 0x6Cu8][0] != "png".spec_bytes()[0]); }
            if i == 1 { assert(seq![0x78u8, 0x6Du8, 0x6Cu8][0] != "jpg".spec_bytes()[0]); }
            if i == 2 { assert(seq![0x78u8, 0x6Du8, 0x6Cu8].len() != "jpeg".spec_bytes().len()); }
            if i == 3 { assert(seq![0x78u8, 0x6Du8, 0x6Cu8][0] != "bmp".spec_bytes()[0]); }
            if i == 4 { assert(seq![0x78u8, 0x6Du8, 0x6Cu8][0] != "tif".spec_bytes()[0]); }
            if i == 5 { assert(seq![0x78u8, 0x6Du8, 0x6Cu8].len() != "tiff".spec_bytes().len()); }
            if i == 6 { assert(seq![0x78u8, 0x6Du8, 0x6Cu8].len() != "webp".spec_bytes().len()); }
        }
    }
    assert(seq![0x78u8, 0x6Du8, 0x6Cu8].len() != "apng".spec_bytes().len());
    assert(seq![0x78u8, 0x6Du8, 0x6Cu8][0] != "gif".spec_bytes()[0]);
    assert(!is_one_of(seq![0x78u8, 0x6Du8, 0x6Cu8], video_extensions())) by {
        let names: Seq<&str> = video_extensions();
        assert forall|i: int| 0 <= i < names.len() implies names[i].spec_bytes() != seq![0x78u8, 0x6Du8, 0x6Cu8] by {
            if i == 0 { assert(seq![0x78u8, 0x6Du8, 0x6Cu8][0] != "mp4".spec_bytes()[0]); }
            if i == 1 { assert(seq![0x78u8, 0x6Du8, 0x6Cu8][0] != "mov".spec_bytes()[0]); }
            if i == 2 { assert(seq![0x78u8, 0x6Du8, 0x6Cu8][0] != "avi".spec_bytes()[0]); }
            if i == 3 { assert(seq![0x78u8, 0x6Du8, 0x6Cu8][0] != "mkv".spec_bytes()[0]); }
            if i == 4 { assert(seq![0x78u8, 0x6Du8, 0x6Cu8].len() != "webm".spec_bytes().len()); }
        }
    }
    assert(!is_one_of(seq![0x78u8, 0x6Du8, 0x6Cu8], audio_extensions())) by {
        let names: Seq<&str> = audio_extensions();
        assert forall|i: int| 0 <= i < names.len() implies names[i].spec_bytes() != seq![0x78u8, 0x6Du8, 0x6Cu8] by {
            if i == 0 { assert(seq![0x78u8, 0x6Du8, 0x6Cu8][0] != "mp3".spec_bytes()[0]); }
            if i == 1 { assert(seq![0x78u8, 0x6Du8, 0x6Cu8][0] != "wav".spec_bytes()[0]); }
            if i == 2 { assert(seq![0x78u8, 0x6Du8, 0x6Cu8].len() != "flac".spec_bytes().len()); }
            if i == 3 { assert(seq![0x78u8, 0x6Du8, 0x6Cu8][0] != "aac".spec_bytes()[0]); }
            if i == 4 { assert(seq![0x78u8, 0x6Du8, 0x6Cu8][0] != "m4a".spec_bytes()[0]); }
            if i == 5 { assert(seq![0x78u8, 0x6Du8, 0x6Cu8][0] != "ogg".spec_bytes()[0]); }
            if i == 6 { assert(seq![0x78u8, 0x6Du8, 0x6Cu8][0] != "oga".spec_bytes()[0]); }
            if i == 7 { assert(seq![0x78u8, 0x6Du8, 0x6Cu8].len() != "opus".spec_bytes().len()); }
            if i == 8 { assert(seq![0x78u8, 0x6Du8, 0x6Cu8][0] != "wma".spec_bytes()[0]); }
            if i == 9 { assert(seq![0x78u8, 0x6Du8, 0x6Cu8][0] != "amr".spec_bytes()[0]); }
            if i == 10 { assert(seq![0x78u8, 0x6Du8, 0x6Cu8].len() != "aiff".spec_bytes().len()); }
            if i == 11 { assert(seq![0x78u8, 0x6Du8, 0x6Cu8].len() != "alac".spec_bytes().len()); }
        }
    }
    assert(other_extensions()[4].spec_bytes() == seq![0x78u8, 0x6Du8, 0x6Cu8]);
}

#[verifier::rlimit(100)]
proof fn lemma_extension_kind_doc()
    ensures
        kind_from_extension(seq![0x64u8, 0x6Fu8, 0x63u8]) == Some(FileKind::Other),
{
    lemma_bytes_of_png();
    lemma_bytes_of_jpg();
    lemma_bytes_of_jpeg();
    lemma_bytes_of_bmp();
    lemma_bytes_of_tif();
    lemma_bytes_of_tiff();
    lemma_bytes_of_webp();
    lemma_bytes_of_apng();
    lemma_bytes_of_gif();
    lemma_bytes_of_mp4();
    lemma_bytes_of_mov();
    lemma_bytes_of_avi();
    lemma_bytes_of_mkv();
    lemma_bytes_of_webm();
    lemma_bytes_of_mp3();
    lemma_bytes_of_wav();
    lemma_bytes_of_flac();
    lemma_bytes_of_aac();
    lemma_bytes_of_m4a();
    lemma_bytes_of_ogg();
    lemma_bytes_of_oga();
    lemma_bytes_of_opus();
    lemma_bytes_of_wma();
    lemma_bytes_of_amr();
    lemma_bytes_of_aiff();
    lemma_bytes_of_alac();
    lemma_bytes_of_doc();
    assert(!is_one_of(seq![0x64u8, 0x6Fu8, 0x63u8], image_extensions())) by {
        let names: Seq<&str> = image_extensions();
        assert forall|i: int| 0 <= i < names.len() implies names[i].spec_bytes() != seq![0x64u8, 0x6Fu8, 0x63u8] by {
            if i == 0 { assert(seq![0x64u8, 0x6Fu8, 0x63u8][0] != "png".spec_bytes()[0]); }
            if i == 1 { assert(seq![0x64u8, 0x6Fu8, 0x63u8][0] != "jpg".spec_bytes()[0]); }
            if i == 2 { assert(seq![0x64u8, 0x6Fu8, 0x63u8].len() != "jpeg".spec_bytes().len()); }
            if i == 3 { assert(seq![0x64u8, 0x6Fu8, 0x63u8][0] != "bmp".spec_bytes()[0]); }
            if i == 4 { assert(seq![0x64u8, 0x6Fu8, 0x63u8][0] != "tif".spec_bytes()[0]); }
            if i == 5 { assert(seq![0x64u8, 0x6Fu8, 0x63u8].len() != "tiff".spec_bytes().len()); }
            if i == 6 { assert(seq![0x64u8, 0x6Fu8, 0x63u8].len() != "webp".spec_bytes().len()); }
        }
    }
    assert(seq![0x64u8, 0x6Fu8, 0x63u8].len() != "apng".spec_bytes().len());
    assert(seq![0x64u8, 0x6Fu8, 0x63u8][0] != "gif".spec_bytes()[0]);
    assert(!is_one_of(seq![0x64u8, 0x6Fu8, 0x63u8], video_extensions())) by {
        let names: Seq<&str> = video_extensions();
        assert forall|i: int| 0 <= i < names.len() implies names[i].spec_bytes() != seq![0x64u8, 0x6Fu8, 0x63u8] by {
            if i == 0 { assert(seq![0x64u8, 0x6Fu8, 0x63u8][0] != "mp4".spec_bytes()[0]); }
            if i == 1 { assert(seq![0x64u8, 0x6Fu8, 0x63u8][0] != "mov".spec_bytes()[0]); }
            if i == 2 { assert(seq![0x64u8, 0x6Fu8, 0x63u8][0] != "avi".spec_bytes()[0]); }
            if i == 3 { assert(seq![0x64u8, 0x6Fu8, 0x63u8][0] != "mkv".spec_bytes()[0]); }
            if i == 4 { assert(seq![0x64u8, 0x6Fu8, 0x63u8].len() != "webm".spec_bytes().len()); }
        }
    }
    assert(!is_one_of(seq![0x64u8, 0x6Fu8, 0x63u8], audio_extensions())) by {
        let names: Seq<&str> = audio_extensions();
        assert forall|i: int| 0 <= i < names.len() implies names[i].spec_bytes() != seq![0x64u8, 0x6Fu8, 0x63u8] by {
            if i == 0 { assert(seq![0x64u8, 0x6Fu8, 0x63u8][0] != "mp3".spec_bytes()[0]); }
            if i == 1 { assert(seq![0x64u8, 0x6Fu8, 0x63u8][0] != "wav".spec_bytes()[0]); }
            if i == 2 { assert(seq![0x64u8, 0x6Fu8, 0x63u8].len() != "flac".spec_bytes().len()); }
            if i == 3 { assert(seq![0x64u8, 0x6Fu8, 0x63u8][0] != "aac".spec_bytes()[0]); }
            if i == 4 { assert(seq![0x64u8, 0x6Fu8, 0x63u8][0] != "m4a".spec_bytes()[0]); }
            if i == 5 { assert(seq![0x64u8, 0x6Fu8, 0x63u8][0] != "ogg".spec_bytes()[0]); }
            if i == 6 { assert(seq![0x64u8, 0x6Fu8, 0x63u8][0] != "oga".spec_bytes()[0]); }
            if i == 7 { assert(seq![0x64u8, 0x6Fu8, 0x63u8].len() != "opus".spec_bytes().len()); }
            if i == 8 { assert(seq![0x64u8, 0x6Fu8, 0x63u8][0] != "wma".spec_bytes()[0]); }
            if i == 9 { assert(seq![0x64u8, 0x6Fu8, 0x63u8][0] != "amr".spec_bytes()[0]); }
            if i == 10 { assert(seq![0x64u8, 0x6Fu8, 0x63u8].len() != "aiff".spec_bytes().len()); }
            if i == 11 { assert(seq![0x64u8, 0x6Fu8, 0x63u8].len() != "alac".spec_bytes().len()); }
        }
    }
    assert(other_extensions()[5].spec_bytes() == seq![0x64u8, 0x6Fu8, 0x63u8]);
}

#[verifier::rlimit(100)]
proof fn lemma_extension_kind_docx()
    ensures
        kind_from_extension(seq![0x64u8, 0x6Fu8, 0x63u8, 0x78u8]) == Some(FileKind::Other),
{
    lemma_bytes_of_png();
    lemma_bytes_of_jpg();
    lemma_bytes_of_jpeg();
    lemma_bytes_of_bmp();
    lemma_bytes_of_tif();
    lemma_bytes_of_tiff();
    lemma_bytes_of_webp();
    lemma_bytes_of_apng();
    lemma_bytes_of_gif();
    lemma_bytes_of_mp4();
    lemma_bytes_of_mov();
    lemma_bytes_of_avi();
    lemma_bytes_of_mkv();
    lemma_bytes_of_webm();
    lemma_bytes_of_mp3();
    lemma_bytes_of_wav();
    lemma_bytes_of_flac();
    lemma_bytes_of_aac();
    lemma_bytes_of_m4a();
    lemma_bytes_of_ogg();
    lemma_bytes_of_oga();
    lemma_bytes_of_opus();
    lemma_bytes_of_wma();
    lemma_bytes_of_amr();
    lemma_bytes_of_aiff();
    lemma_bytes_of_alac();
    lemma_bytes_of_docx();
    assert(!is_one_of(seq![0x64u8, 0x6Fu8, 0x63u8, 0x78u8], image_extensions())) by {
        let names: Seq<&str> = image_extensions();
        assert forall|i: int| 0 <= i < names.len() implies names[i].spec_bytes() != seq![0x64u8, 0x6Fu8, 0x63u8, 0x78u8] by {
            if i == 0 { assert(seq![0x64u8, 0x6Fu8, 0x63u8, 0x78u8].len() != "png".spec_bytes().len()); }
            if i == 1 { assert(seq![0x64u8, 0x6Fu8, 0x63u8, 0x78u8].len() != "jpg".spec_bytes().len()); }
            if i == 2 { assert(seq![0x64u8, 0x6Fu8, 0x63u8, 0x78u8][0] != "jpeg".spec_bytes()[0]); }
            if i == 3 { assert(seq![0x64u8, 0x6Fu8, 0x63u8, 0x78u8].len() != "bmp".spec_bytes().len()); }
            if i == 4 { assert(seq![0x64u8, 0x6Fu8, 0x63u8, 0x78u8].len() != "tif".spec_bytes().len()); }
            if i == 5 { assert(seq![0x64u8, 0x6Fu8, 0x63u8, 0x78u8][0] != "tiff".spec_bytes()[0]); }
            if i == 6 { assert(seq![0x64u8, 0x6Fu8, 0x63u8, 0x78u8][0] != "webp".spec_bytes()[0]); }
        }
    }
    assert(seq![0x64u8, 0x6Fu8, 0x63u8, 0x78u8][0] != "apng".spec_bytes()[0]);
    assert(seq![0x64u8, 0x6Fu8, 0x63u8, 0x78u8].len() != "gif".spec_bytes().len());
    assert(!is_one_of(seq![0x64u8, 0x6Fu8, 0x63u8, 0x78u8], video_extensions())) by {
        let names: Seq<&str> = video_extensions();
        assert forall|i: int| 0 <= i < names.len() implies names[i].spec_bytes() != seq![0x64u8, 0x6Fu8, 0x63u8, 0x78u8] by {
            if i == 0 { assert(seq![0x64u8, 0x6Fu8, 0x63u8, 0x78u8].len() != "mp4".spec_bytes().len()); }
            if i == 1 { assert(seq![0x64u8, 0x6Fu8, 0x63u8, 0x78u8].len() != "mov".spec_bytes().len()); }
            if i == 2 { assert(seq![0x64u8, 0x6Fu8, 0x63u8, 0x78u8].len() != "avi".spec_bytes().len()); }
            if i == 3 { assert(seq![0x64u8, 0x6Fu8, 0x63u8, 0x78u8].len() != "mkv".spec_bytes().len()); }
            if i == 4 { assert(seq![0x64u8, 0x6Fu8, 0x63u8, 0x78u8][0] != "webm".spec_bytes()[0]); }
        }
    }
    assert(!is_one_of(seq![0x64u8, 0x6Fu8, 0x63u8, 0x78u8], audio_extensions())) by {
        let names: Seq<&str> = audio_extensions();
        assert forall|i: int| 0 <= i < names.len() implies names[i].spec_bytes() != seq![0x64u8, 0x6Fu8, 0x63u8, 0x78u8] by {
            if i == 0 { assert(seq![0x64u8, 0x6Fu8, 0x63u8, 0x78u8].len() != "mp3".spec_bytes().len()); }
            if i == 1 { assert(seq![0x64u8, 0x6Fu8, 0x63u8, 0x78u8].len() != "wav".spec_bytes().len()); }
            if i == 2 { assert(seq![0x64u8, 0x6Fu8, 0x63u8, 0x78u8][0] != "flac".spec_bytes()[0]); }
            if i == 3 { assert(seq![0x64u8, 0x6Fu8, 0x63u8, 0x78u8].len() != "aac".spec_bytes().len()); }
            if i == 4 { assert(seq![0x64u8, 0x6Fu8, 0x63u8, 0x78u8].len() != "m4a".spec_bytes().len()); }
            if i == 5 { assert(seq![0x64u8, 0x6Fu8, 0x63u8, 0x78u8].len() != "ogg".spec_bytes().len()); }
            if i == 6 { assert(seq![0x64u8, 0x6Fu8, 0x63u8, 0x78u8].len() != "oga".spec_bytes().len()); }
            if i == 7 { assert(seq![0x64u8, 0x6Fu8, 0x63u8, 0x78u8][0] != "opus".spec_bytes()[0]); }
            if i == 8 { assert(seq![0x64u8, 0x6Fu8, 0x63u8, 0x78u8].len() != "wma".spec_bytes().len()); }
            if i == 9 { assert(seq![0x64u8, 0x6Fu8, 0x63u8, 0x78u8].len() != "amr".spec_bytes().len()); }
            if i == 10 { assert(seq![0x64u8, 0x6Fu8, 0x63u8, 0x78u8][0] != "aiff".spec_bytes()[0]); }
            if i == 11 { assert(seq![0x64u8, 0x6Fu8, 0x63u8, 0x78u8][0] != "alac".spec_bytes()[0]); }
        }
    }
    assert(other_extensions()[6].spec_bytes() == seq![0x64u8, 0x6Fu8, 0x63u8, 0x78u8]);
}

#[verifier::rlimit(100)]
proof fn lemma_extension_kind_zip()
    ensures
        kind_from_extension(seq![0x7Au8, 0x69u8, 0x70u8]) == Some(FileKind::Other),
{
    lemma_bytes_of_png();
    lemma_bytes_of_jpg();
    lemma_bytes_of_jpeg();
    lemma_bytes_of_bmp();
    lemma_bytes_of_tif();
    lemma_bytes_of_tiff();
    lemma_bytes_of_webp();
    lemma_bytes_of_apng();
    lemma_bytes_of_gif();
    lemma_bytes_of_mp4();
    lemma_bytes_of_mov();
    lemma_bytes_of_avi();
    lemma_bytes_of_mkv();
    lemma_bytes_of_webm();
    lemma_bytes_of_mp3();
    lemma_bytes_of_wav();
    lemma_bytes_of_flac();
    lemma_bytes_of_aac();
    lemma_bytes_of_m4a();
    lemma_bytes_of_ogg();
    lemma_bytes_of_oga();
    lemma_bytes_of_opus();
    lemma_bytes_of_wma();
    lemma_bytes_of_amr();
    lemma_bytes_of_aiff();
    lemma_bytes_of_alac();
    lemma_bytes_of_zip();
    assert(!is_one_of(seq![0x7Au8, 0x69u8, 0x70u8], image_extensions())) by {
        let names: Seq<&str> = image_extensions();
        assert forall|i: int| 0 <= i < names.len() implies names[i].spec_bytes() != seq![0x7Au8, 0x69u8, 0x70u8] by {
            if i == 0 { assert(seq![0x7Au8, 0x69u8, 0x70u8][0] != "png".spec_bytes()[0]); }
            if i == 1 { assert(seq![0x7Au8, 0x69u8, 0x70u8][0] != "jpg".spec_bytes()[0]); }
            if i == 2 { assert(seq![0x7Au8, 0x69u8, 0x70u8].len() != "jpeg".spec_bytes().len()); }
            if i == 3 { assert(seq![0x7Au8, 0x69u8, 0x70u8][0] != "bmp".spec_bytes()[0]); }
            if i == 4 { assert(seq![0x7Au8, 0x69u8, 0x70u8][0] != "tif".spec_bytes()[0]); }
            if i == 5 { assert(seq![0x7Au8, 0x69u8, 0x70u8].len() != "tiff".spec_bytes().len()); }
            if i == 6 { assert(seq![0x7Au8, 0x69u8, 0x70u8].len() != "webp".spec_bytes().len()); }
        }
    }
    assert(seq![0x7Au8, 0x69u8, 0x70u8].len() != "apng".spec_bytes().len());
    assert(seq![0x7Au8, 0x69u8, 0x70u8][0] != "gif".spec_bytes()[0]);
    assert(!is_one_of(seq![0x7Au8, 0x69u8, 0x70u8], video_extensions())) by {
        let names: Seq<&str> = video_extensions();
        assert forall|i: int| 0 <= i < names.len() implies names[i].spec_bytes() != seq![0x7Au8, 0x69u8, 0x70u8] by {
            if i == 0 { assert(seq![0x7Au8, 0x69u8, 0x70u8][0] != "mp4".spec_bytes()[0]); }
            if i == 1 { assert(seq![0x7Au8, 0x69u8, 0x70u8][0] != "mov".spec_bytes()[0]); }
            if i == 2 { assert(seq![0x7Au8, 0x69u8, 0x70u8][0] != "avi".spec_bytes()[0]); }
            if i == 3 { assert(seq![0x7Au8, 0x69u8, 0x70u8][0] != "mkv".spec_bytes()[0]); }
            if i == 4 { assert(seq![0x7Au8, 0x69u8, 0x70u8].len() != "webm".spec_bytes().len()); }
        }
    }
    assert(!is_one_of(seq![0x7Au8, 0x69u8, 0x70u8], audio_extensions())) by {
        let names: Seq<&str> = audio_extensions();
        assert forall|i: int| 0 <= i < names.len() implies names[i].spec_bytes() != seq![0x7Au8, 0x69u8, 0x70u8] by {
            if i == 0 { assert(seq![0x7Au8, 0x69u8, 0x70u8][0] != "mp3".spec_bytes()[0]); }
            if i == 1 { assert(seq![0x7Au8, 0x69u8, 0x70u8][0] != "wav".spec_bytes()[0]); }
            if i == 2 { assert(seq![0x7Au8, 0x69u8, 0x70u8].len() != "flac".spec_bytes().len()); }
            if i == 3 { assert(seq![0x7Au8, 0x69u8, 0x70u8][0] != "aac".spec_bytes()[0]); }
            if i == 4 { assert(seq![0x7Au8, 0x69u8, 0x70u8][0] != "m4a".spec_bytes()[0]); }
            if i == 5 { assert(seq![0x7Au8, 0x69u8, 0x70u8][0] != "ogg".spec_bytes()[0]); }
            if i == 6 { assert(seq![0x7Au8, 0x69u8, 0x70u8][0] != "oga".spec_bytes()[0]); }
            if i == 7 { assert(seq![0x7Au8, 0x69u8, 0x70u8].len() != "opus".spec_bytes().len()); }
            if i == 8 { assert(seq![0x7Au8, 0x69u8, 0x70u8][0] != "wma".spec_bytes()[0]); }
            if i == 9 { assert(seq![0x7Au8, 0x69u8, 0x70u8][0] != "amr".spec_bytes()[0]); }
            if i == 10 { assert(seq![0x7Au8, 0x69u8, 0x70u8].len() != "aiff".spec_bytes().len()); }
            if i == 11 { assert(seq![0x7Au8, 0x69u8, 0x70u8].len() != "alac".spec_bytes().len()); }
        }
    }
    assert(other_extensions()[7].spec_bytes() == seq![0x7Au8, 0x69u8, 0x70u8]);
}

#[verifier::rlimit(100)]
proof fn lemma_extension_kind_x7z()
    ensures
        kind_from_extension(seq![0x37u8, 0x7Au8]) == Some(FileKind::Other),
{
    lemma_bytes_of_png();
    lemma_bytes_of_jpg();
    lemma_bytes_of_jpeg();
    lemma_bytes_of_bmp();
    lemma_bytes_of_tif();
    lemma_bytes_of_tiff();
    lemma_bytes_of_webp();
    lemma_bytes_of_apng();
    lemma_bytes_of_gif();
    lemma_bytes_of_mp4();
    lemma_bytes_of_mov();
    lemma_bytes_of_avi();
    lemma_bytes_of_mkv();
    lemma_bytes_of_webm();
    lemma_bytes_of_mp3();
    lemma_bytes_of_wav();
    lemma_bytes_of_flac();
    lemma_bytes_of_aac();
    lemma_bytes_of_m4a();
    lemma_bytes_of_ogg();
    lemma_bytes_of_oga();
    lemma_bytes_of_opus();
    lemma_bytes_of_wma();
    lemma_bytes_of_amr();
    lemma_bytes_of_aiff();
    lemma_bytes_of_alac();
    lemma_bytes_of_x7z();
    assert(!is_one_of(seq![0x37u8, 0x7Au8], image_extensions())) by {
        let names: Seq<&str> = image_extensions();
        assert forall|i: int| 0 <= i < names.len() implies names[i].spec_bytes() != seq![0x37u8, 0x7Au8] by {
            if i == 0 { assert(seq![0x37u8, 0x7Au8].len() != "png".spec_bytes().len()); }
            if i == 1 { assert(seq![0x37u8, 0x7Au8].len() != "jpg".spec_bytes().len()); }
            if i == 2 { assert(seq![0x37u8, 0x7Au8].len() != "jpeg".spec_bytes().len()); }
            if i == 3 { assert(seq![0x37u8, 0x7Au8].len() != "bmp".spec_bytes().len()); }
            if i == 4 { assert(seq![0x37u8, 0x7Au8].len() != "tif".spec_bytes().len()); }
            if i == 5 { assert(seq![0x37u8, 0x7Au8].len() != "tiff".spec_bytes().len()); }
            if i == 6 { assert(seq![0x37u8, 0x7Au8].len() != "webp".spec_bytes().len()); }
        }
    }
    assert(seq![0x37u8, 0x7Au8].len() != "apng".spec_bytes().len());
    assert(seq![0x37u8, 0x7Au8].len() != "gif".spec_bytes().len());
    assert(!is_one_of(seq![0x37u8, 0x7Au8], video_extensions())) by {
        let names: Seq<&str> = video_extensions();
        assert forall|i: int| 0 <= i < names.len() implies names[i].spec_bytes() != seq![0x37u8, 0x7Au8] by {
            if i == 0 { assert(seq![0x37u8, 0x7Au8].len() != "mp4".spec_bytes().len()); }
            if i == 1 { assert(seq![0x37u8, 0x7Au8].len() != "mov".spec_bytes().len()); }
            if i == 2 { assert(seq![0x37u8, 0x7Au8].len() != "avi".spec_bytes().len()); }
            if i == 3 { assert(seq![0x37u8, 0x7Au8].len() != "mkv".spec_bytes().len()); }
            if i == 4 { assert(seq![0x37u8, 0x7Au8].len() != "webm".spec_bytes().len()); }
        }
    }
    assert(!is_one_of(seq![0x37u8, 0x7Au8], audio_extensions())) by {
        let names: Seq<&str> = audio_extensions();
        assert forall|i: int| 0 <= i < names.len() implies names[i].spec_bytes() != seq![0x37u8, 0x7Au8] by {
            if i == 0 { assert(seq![0x37u8, 0x7Au8].len() != "mp3".spec_bytes().len()); }
            if i == 1 { assert(seq![0x37u8, 0x7Au8].len() != "wav".spec_bytes().len()); }
            if i == 2 { assert(seq![0x37u8, 0x7Au8].len() != "flac".spec_bytes().len()); }
            if i == 3 { assert(seq![0x37u8, 0x7Au8].len() != "aac".spec_bytes().len()); }
            if i == 4 { assert(seq![0x37u8, 0x7Au8].len() != "m4a".spec_bytes().len()); }
            if i == 5 { assert(seq![0x37u8, 0x7Au8].len() != "ogg".spec_bytes().len()); }
            if i == 6 { assert(seq![0x37u8, 0x7Au8].len() != "oga".spec_bytes().len()); }
            if i == 7 { assert(seq![0x37u8, 0x7Au8].len() != "opus".spec_bytes().len()); }
            if i == 8 { assert(seq![0x37u8, 0x7Au8].len() != "wma".spec_bytes().len()); }
            if i == 9 { assert(seq![0x37u8, 0x7Au8].len() != "amr".spec_bytes().len()); }
            if i == 10 { assert(seq![0x37u8, 0x7Au8].len() != "aiff".spec_bytes().len()); }
            if i == 11 { assert(seq![0x37u8, 0x7Au8].len() != "alac".spec_bytes().len()); }
        }
    }
    assert(other_extensions()[8].spec_bytes() == seq![0x37u8, 0x7Au8]);
}

/// The kind a file name names, by its extension in any letter case:
/// still images: png, jpg, jpeg, bmp, tif, tiff and webp;
/// animated images: apng;
/// GIF: gif;
/// video: mp4, mov, avi, mkv and webm;
/// audio: mp3, wav, flac, aac, m4a, ogg, oga, opus, wma, amr, aiff and alac;
/// other files: pdf, txt, csv, json, xml, doc, docx, zip and 7z.
pub proof fn law_extension_kinds(name: Seq<u8>)
    ensures
        path_extension(name) matches Some(e) && lower(e) == seq![0x70u8, 0x6Eu8, 0x67u8] ==> kind_from_name_bytes(name) == Some(FileKind::Image),
        path_extension(name) matches Some(e) && lower(e) == seq![0x6Au8, 0x70u8, 0x67u8] ==> kind_from_name_bytes(name) == Some(FileKind::Image),
        path_extension(name) matches Some(e) && lower(e) == seq![0x6Au8, 0x70u8, 0x65u8, 0x67u8] ==> kind_from_name_bytes(name) == Some(FileKind::Image),
        path_extension(name) matches Some(e) && lower(e) == seq![0x62u8, 0x6Du8, 0x70u8] ==> kind_from_name_bytes(name) == Some(FileKind::Image),
        path_extension(name) matches Some(e) && lower(e) == seq![0x74u8, 0x69u8, 0x66u8] ==> kind_from_name_bytes(name) == Some(FileKind::Image),
        path_extension(name) matches Some(e) && lower(e) == seq![0x74u8, 0x69u8, 0x66u8, 0x66u8] ==> kind_from_name_bytes(name) == Some(FileKind::Image),
        path_extension(name) matches Some(e) && lower(e) == seq![0x77u8, 0x65u8, 0x62u8, 0x70u8] ==> kind_from_name_bytes(name) == Some(FileKind::Image),
        path_extension(name) matches Some(e) && lower(e) == seq![0x61u8, 0x70u8, 0x6Eu8, 0x67u8] ==> kind_from_name_bytes(name) == Some(FileKind::AnimatedImage),
        path_extension(name) matches Some(e) && lower(e) == seq![0x67u8, 0x69u8, 0x66u8] ==> kind_from_name_bytes(name) == Some(FileKind::Gif),
        path_extension(name) matches Some(e) && lower(e) == seq![0x6Du8, 0x70u8, 0x34u8] ==> kind_from_name_bytes(name) == Some(FileKind::Video),
        path_extension(name) matches Some(e) && lower(e) == seq![0x6Du8, 0x6Fu8, 0x76u8] ==> kind_from_name_bytes(name) == Some(FileKind::Video),
        path_extension(name) matches Some(e) && lower(e) == seq![0x61u8, 0x76u8, 0x69u8] ==> kind_from_name_bytes(name) == Some(FileKind::Video),
        path_extension(name) matches Some(e) && lower(e) == seq![0x6Du8, 0x6Bu8, 0x76u8] ==> kind_from_name_bytes(name) == Some(FileKind::Video),
        path_extension(name) matches Some(e) && lower(e) == seq![0x77u8, 0x65u8, 0x62u8, 0x6Du8] ==> kind_from_name_bytes(name) == Some(FileKind::Video),
        path_extension(name) matches Some(e) && lower(e) == seq![0x6Du8, 0x70u8, 0x33u8] ==> kind_from_name_bytes(name) == Some(FileKind::Audio),
        path_extension(name) matches Some(e) && lower(e) == seq![0x77u8, 0x61u8, 0x76u8] ==> kind_from_name_bytes(name) == Some(FileKind::Audio),
        path_extension(name) matches Some(e) && lower(e) == seq![0x66u8, 0x6Cu8, 0x61u8, 0x63u8] ==> kind_from_name_bytes(name) == Some(FileKind::Audio),
        path_extension(name) matches Some(e) && lower(e) == seq![0x61u8, 0x61u8, 0x63u8] ==> kind_from_name_bytes(name) == Some(FileKind::Audio),
        path_extension(name) matches Some(e) && lower(e) == seq![0x6Du8, 0x34u8, 0x61u8] ==> kind_from_name_bytes(name) == Some(FileKind::Audio),
        path_extension(name) matches Some(e) && lower(e) == seq![0x6Fu8, 0x67u8, 0x67u8] ==> kind_from_name_bytes(name) == Some(FileKind::Audio),
        path_extension(name) matches Some(e) && lower(e) == seq![0x6Fu8, 0x67u8, 0x61u8] ==> kind_from_name_bytes(name) == Some(FileKind::Audio),
        path_extension(name) matches Some(e) && lower(e) == seq![0x6Fu8, 0x70u8, 0x75u8, 0x73u8] ==> kind_from_name_bytes(name) == Some(FileKind::Audio),
        path_extension(name) matches Some(e) && lower(e) == seq![0x77u8, 0x6Du8, 0x61u8] ==> kind_from_name_bytes(name) == Some(FileKind::Audio),
        path_extension(name) matches Some(e) && lower(e) == seq![0x61u8, 0x6Du8, 0x72u8] ==> kind_from_name_bytes(name) == Some(FileKind::Audio),
        path_extension(name) matches Some(e) && lower(e) == seq![0x61u8, 0x69u8, 0x66u8, 0x66u8] ==> kind_from_name_bytes(name) == Some(FileKind::Audio),
        path_extension(name) matches Some(e) && lower(e) == seq![0x61u8, 0x6Cu8, 0x61u8, 0x63u8] ==> kind_from_name_bytes(name) == Some(FileKind::Audio),
        path_extension(name) matches Some(e) && lower(e) == seq![0x70u8, 0x64u8, 0x66u8] ==> kind_from_name_bytes(name) == Some(FileKind::Other),
        path_extension(name) matches Some(e) && lower(e) == seq![0x74u8, 0x78u8, 0x74u8] ==> kind_from_name_bytes(name) == Some(FileKind::Other),
        path_extension(name) matches Some(e) && lower(e) == seq![0x63u8, 0x73u8, 0x76u8] ==> kind_from_name_bytes(name) == Some(FileKind::Other),
        path_extension(name) matches Some(e) && lower(e) == seq![0x6Au8, 0x73u8, 0x6Fu8, 0x6Eu8] ==> kind_from_name_bytes(name) == Some(FileKind::Other),
        path_extension(name) matches Some(e) && lower(e) == seq![0x78u8, 0x6Du8, 0x6Cu8] ==> kind_from_name_bytes(name) == Some(FileKind::Other),
        path_extension(name) matches Some(e) && lower(e) == seq![0x64u8, 0x6Fu8, 0x63u8] ==> kind_from_name_bytes(name) == Some(FileKind::Other),
        path_extension(name) matches Some(e) && lower(e) == seq![0x64u8, 0x6Fu8, 0x63u8, 0x78u8] ==> kind_from_name_bytes(name) == Some(FileKind::Other),
        path_extension(name) matches Some(e) && lower(e) == seq![0x7Au8, 0x69u8, 0x70u8] ==> kind_from_name_bytes(name) == Some(FileKind::Other),
        path_extension(name) matches Some(e) && lower(e) == seq![0x37u8, 0x7Au8] ==> kind_from_name_bytes(name) == Some(FileKind::Other),
{
    if path_extension(name) is Some {
        lemma_extension_kind_png();
        lemma_extension_kind_jpg();
        lemma_extension_kind_jpeg();
        lemma_extension_kind_bmp();
        lemma_extension_kind_tif();
        lemma_extension_kind_tiff();
        lemma_extension_kind_webp();
        lemma_extension_kind_apng();
        lemma_extension_kind_gif();
        lemma_extension_kind_mp4();
        lemma_extension_kind_mov();
        lemma_extension_kind_avi();
        lemma_extension_kind_mkv();
        lemma_extension_kind_webm();
        lemma_extension_kind_mp3();
        lemma_extension_kind_wav();
        lemma_extension_kind_flac();
        lemma_extension_kind_aac();
        lemma_extension_kind_m4a();
        lemma_extension_kind_ogg();
        lemma_extension_kind_oga();
        lemma_extension_kind_opus();
        lemma_extension_kind_wma();
        lemma_extension_kind_amr();
        lemma_extension_kind_aiff();
        lemma_extension_kind_alac();
        lemma_extension_kind_pdf();
        lemma_extension_kind_txt();
        lemma_extension_kind_csv();
        lemma_extension_kind_json();
        lemma_extension_kind_xml();
        lemma_extension_kind_doc();
        lemma_extension_kind_docx();
        lemma_extension_kind_zip();
        lemma_extension_kind_x7z();
    }
}

proof fn lemma_mime_prefix_literals()
    ensures
        "image/gif".spec_bytes() == seq![0x69u8, 0x6Du8, 0x61u8, 0x67u8, 0x65u8, 0x2Fu8, 0x67u8, 0x69u8, 0x66u8],
        "image/svg".spec_bytes() == seq![0x69u8, 0x6Du8, 0x61u8, 0x67u8, 0x65u8, 0x2Fu8, 0x73u8, 0x76u8, 0x67u8],
        "image/".spec_bytes() == seq![0x69u8, 0x6Du8, 0x61u8, 0x67u8, 0x65u8, 0x2Fu8],
        "video/".spec_bytes() == seq![0x76u8, 0x69u8, 0x64u8, 0x65u8, 0x6Fu8, 0x2Fu8],
        "audio/".spec_bytes() == seq![0x61u8, 0x75u8, 0x64u8, 0x69u8, 0x6Fu8, 0x2Fu8],
        "application/".spec_bytes() == seq![0x61u8, 0x70u8, 0x70u8, 0x6Cu8, 0x69u8, 0x63u8, 0x61u8, 0x74u8, 0x69u8, 0x6Fu8, 0x6Eu8, 0x2Fu8],
        "text/".spec_bytes() == seq![0x74u8, 0x65u8, 0x78u8, 0x74u8, 0x2Fu8],
{
    broadcast use vstd::string::group_string_axioms;
    reveal_strlit("image/gif");
    assert(vstd::string::is_ascii("image/gif"));
    assert("image/gif".spec_bytes() =~= seq![0x69u8, 0x6Du8, 0x61u8, 0x67u8, 0x65u8, 0x2Fu8, 0x67u8, 0x69u8, 0x66u8]);
    reveal_strlit("image/svg");
    assert(vstd::string::is_ascii("image/svg"));
    assert("image/svg".spec_bytes() =~= seq![0x69u8, 0x6Du8, 0x61u8, 0x67u8, 0x65u8, 0x2Fu8, 0x73u8, 0x76u8, 0x67u8]);
    reveal_strlit("image/");
    assert(vstd::string::is_ascii("image/"));
    assert("image/".spec_bytes() =~= seq![0x69u8, 0x6Du8, 0x61u8, 0x67u8, 0x65u8, 0x2Fu8]);
    reveal_strlit("video/");
    assert(vstd::string::is_ascii("video/"));
    assert("video/".spec_bytes() =~= seq![0x76u8, 0x69u8, 0x64u8, 0x65u8, 0x6Fu8, 0x2Fu8]);
    reveal_strlit("audio/");
    assert(vstd::string::is_ascii("audio/"));
    assert("audio/".spec_bytes() =~= seq![0x61u8, 0x75u8, 0x64u8, 0x69u8, 0x6Fu8, 0x2Fu8]);
    reveal_strlit("application/");
    assert(vstd::string::is_ascii("application/"));
    assert("application/".spec_bytes() =~= seq![0x61u8, 0x70u8, 0x70u8, 0x6Cu8, 0x69u8, 0x63u8, 0x61u8, 0x74u8, 0x69u8, 0x6Fu8, 0x6Eu8, 0x2Fu8]);
    reveal_strlit("text/");
    assert(vstd::string::is_ascii("text/"));
    assert("text/".spec_bytes() =~= seq![0x74u8, 0x65u8, 0x78u8, 0x74u8, 0x2Fu8]);
}

/// The kind a MIME type names, by its prefix in any letter case: image/gif
/// names GIF, image/svg other, any other image/ type an image; video/ names
/// video, audio/ audio, application/ and text/ other; nothing else names a
/// kind.
pub proof fn law_mime_kinds(mime: Seq<u8>)
    ensures
        ({
            let v = lower(mime);
            &&& has_prefix(v, seq![0x69u8, 0x6Du8, 0x61u8, 0x67u8, 0x65u8, 0x2Fu8, 0x67u8, 0x69u8, 0x66u8]) ==> kind_from_mime_bytes(mime) == Some(FileKind::Gif)
            &&& has_prefix(v, seq![0x69u8, 0x6Du8, 0x61u8, 0x67u8, 0x65u8, 0x2Fu8, 0x73u8, 0x76u8, 0x67u8]) ==> kind_from_mime_bytes(mime) == Some(FileKind::Other)
            &&& has_prefix(v, seq![0x69u8, 0x6Du8, 0x61u8, 0x67u8, 0x65u8, 0x2Fu8]) && !has_prefix(v, seq![0x69u8, 0x6Du8, 0x61u8, 0x67u8, 0x65u8, 0x2Fu8, 0x67u8, 0x69u8, 0x66u8]) && !has_prefix(
                v,
                seq![0x69u8, 0x6Du8, 0x61u8, 0x67u8, 0x65u8, 0x2Fu8, 0x73u8, 0x76u8, 0x67u8],
            ) ==> kind_from_mime_bytes(mime) == Some(FileKind::Image)
            &&& has_prefix(v, seq![0x76u8, 0x69u8, 0x64u8, 0x65u8, 0x6Fu8, 0x2Fu8]) ==> kind_from_mime_bytes(mime) == Some(FileKind::Video)
            &&& has_prefix(v, seq![0x61u8, 0x75u8, 0x64u8, 0x69u8, 0x6Fu8, 0x2Fu8]) ==> kind_from_mime_bytes(mime) == Some(FileKind::Audio)
            &&& has_prefix(v, seq![0x61u8, 0x70u8, 0x70u8, 0x6Cu8, 0x69u8, 0x63u8, 0x61u8, 0x74u8, 0x69u8, 0x6Fu8, 0x6Eu8, 0x2Fu8]) ==> kind_from_mime_bytes(mime) == Some(FileKind::Other)
            &&& has_prefix(v, seq![0x74u8, 0x65u8, 0x78u8, 0x74u8, 0x2Fu8]) ==> kind_from_mime_bytes(mime) == Some(FileKind::Other)
            &&& !has_prefix(v, seq![0x69u8, 0x6Du8, 0x61u8, 0x67u8, 0x65u8, 0x2Fu8]) && !has_prefix(v, seq![0x76u8, 0x69u8, 0x64u8, 0x65u8, 0x6Fu8, 0x2Fu8]) && !has_prefix(
                v,
                seq![0x61u8, 0x75u8, 0x64u8, 0x69u8, 0x6Fu8, 0x2Fu8],
            ) && !has_prefix(v, seq![0x61u8, 0x70u8, 0x70u8, 0x6Cu8, 0x69u8, 0x63u8, 0x61u8, 0x74u8, 0x69u8, 0x6Fu8, 0x6Eu8, 0x2Fu8]) && !has_prefix(v, seq![0x74u8, 0x65u8, 0x78u8, 0x74u8, 0x2Fu8]) ==> kind_from_mime_bytes(
                mime,
            ) is None
        }),
{
    lemma_mime_prefix_literals();
    let v = lower(mime);
    if v.len() > 0 {
        assert(has_prefix(v, seq![0x69u8, 0x6Du8, 0x61u8, 0x67u8, 0x65u8, 0x2Fu8, 0x67u8, 0x69u8, 0x66u8]) ==> v[0] == 0x69u8 && has_prefix(v, seq![0x69u8, 0x6Du8, 0x61u8, 0x67u8, 0x65u8, 0x2Fu8]));
        assert(has_prefix(v, seq![0x69u8, 0x6Du8, 0x61u8, 0x67u8, 0x65u8, 0x2Fu8, 0x73u8, 0x76u8, 0x67u8]) ==> v[0] == 0x69u8 && has_prefix(v, seq![0x69u8, 0x6Du8, 0x61u8, 0x67u8, 0x65u8, 0x2Fu8]));
        assert(has_prefix(v, seq![0x69u8, 0x6Du8, 0x61u8, 0x67u8, 0x65u8, 0x2Fu8]) ==> v[0] == 0x69u8);
        assert(has_prefix(v, seq![0x76u8, 0x69u8, 0x64u8, 0x65u8, 0x6Fu8, 0x2Fu8]) ==> v[0] == 0x76u8);
        assert(has_prefix(v, seq![0x61u8, 0x75u8, 0x64u8, 0x69u8, 0x6Fu8, 0x2Fu8]) ==> v[0] == 0x61u8 && v[1] == 0x75u8);
        assert(has_prefix(v, seq![0x61u8, 0x70u8, 0x70u8, 0x6Cu8, 0x69u8, 0x63u8, 0x61u8, 0x74u8, 0x69u8, 0x6Fu8, 0x6Eu8, 0x2Fu8]) ==> v[0] == 0x61u8 && v[1] == 0x70u8);
        assert(has_prefix(v, seq![0x74u8, 0x65u8, 0x78u8, 0x74u8, 0x2Fu8]) ==> v[0] == 0x74u8);
        assert(has_prefix(v, seq![0x69u8, 0x6Du8, 0x61u8, 0x67u8, 0x65u8, 0x2Fu8, 0x67u8, 0x69u8, 0x66u8]) ==> !has_prefix(v, seq![0x69u8, 0x6Du8, 0x61u8, 0x67u8, 0x65u8, 0x2Fu8, 0x73u8, 0x76u8, 0x67u8]));
    }
}

} // verus!
