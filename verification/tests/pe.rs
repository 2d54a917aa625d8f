use lanzatool::os_release::expected_os_release;
use lanzatool::pe::pe_section;
use lanzatool::pe::PeError;

struct SectionSpec {
    name: [u8; 8],
    virtual_size: u32,
    raw_data: Vec<u8>,
    pointer_override: Option<u32>,
}

fn put_u16(img: &mut [u8], off: usize, v: u16) {
    img[off] = (v & 0xff) as u8;
    img[off + 1] = (v >> 8) as u8;
}

fn put_u32(img: &mut [u8], off: usize, v: u32) {
    img[off] = (v & 0xff) as u8;
    img[off + 1] = ((v >> 8) & 0xff) as u8;
    img[off + 2] = ((v >> 16) & 0xff) as u8;
    img[off + 3] = ((v >> 24) & 0xff) as u8;
}

/// Build a minimal PE32+ image: DOS header, PE signature, COFF header, a
/// two-byte optional header holding the magic, the section table, then the
/// sections' raw data.
fn build_pe(sections: &[SectionSpec]) -> Vec<u8> {
    let pe_off: usize = 64;
    let coff = pe_off + 4;
    let opt = coff + 20;
    let table = opt + 2;
    let data_start = table + 40 * sections.len();
    let total = data_start + sections.iter().map(|s| s.raw_data.len()).sum::<usize>();
    let mut img = vec![0u8; total];

    img[0] = 0x4d;
    img[1] = 0x5a;
    put_u32(&mut img, 0x3c, pe_off as u32);
    img[pe_off] = 0x50;
    img[pe_off + 1] = 0x45;
    put_u16(&mut img, coff, 0x8664);
    put_u16(&mut img, coff + 2, sections.len() as u16);
    put_u16(&mut img, coff + 16, 2);
    put_u16(&mut img, opt, 0x20b);

    let mut data_off = data_start;
    for (i, s) in sections.iter().enumerate() {
        let base = table + 40 * i;
        img[base..base + 8].copy_from_slice(&s.name);
        put_u32(&mut img, base + 8, s.virtual_size);
        put_u32(&mut img, base + 16, s.raw_data.len() as u32);
        let ptr = s.pointer_override.unwrap_or(data_off as u32);
        put_u32(&mut img, base + 20, ptr);
        img[data_off..data_off + s.raw_data.len()].copy_from_slice(&s.raw_data);
        data_off += s.raw_data.len();
    }
    img
}

fn name8(name: &[u8]) -> [u8; 8] {
    let mut out = [0u8; 8];
    out[..name.len()].copy_from_slice(name);
    out
}

fn osrel_image(text: &str) -> Vec<u8> {
    build_pe(&[SectionSpec {
        name: name8(b".osrel"),
        virtual_size: text.len() as u32,
        raw_data: text.as_bytes().to_vec(),
        pointer_override: None,
    }])
}

#[test]
fn osrel_section_roundtrip() {
    let text = expected_os_release(1, "2023-01-01");
    let img = osrel_image(&text);
    let section = pe_section(&img, b".osrel").unwrap().expect("section should be found");
    assert_eq!(String::from_utf8(section).unwrap(), text);
    assert_eq!(
        text,
        "ID=lanza\nPRETTY_NAME=LanzaOS\nVERSION_ID=Generation 1, Built on 2023-01-01\n"
    );
}

#[test]
fn absent_section_yields_nothing() {
    let img = osrel_image("ID=lanza\n");
    assert_eq!(pe_section(&img, b".text").unwrap(), None);
    assert_eq!(pe_section(&img, b".osre").unwrap(), None);
    assert_eq!(pe_section(&img, b".osrelx").unwrap(), None);
}

#[test]
fn oversized_virtual_size_is_rejected() {
    let img = build_pe(&[SectionSpec {
        name: name8(b".osrel"),
        virtual_size: 6,
        raw_data: b"hello".to_vec(),
        pointer_override: None,
    }]);
    assert_eq!(pe_section(&img, b".osrel"), Err(PeError::SectionSizeExceedsRawData));
}

#[test]
fn virtual_size_trims_trailing_raw_data() {
    let img = build_pe(&[SectionSpec {
        name: name8(b".osrel"),
        virtual_size: 5,
        raw_data: b"hello\0\0\0".to_vec(),
        pointer_override: None,
    }]);
    assert_eq!(pe_section(&img, b".osrel").unwrap(), Some(b"hello".to_vec()));
}

#[test]
fn raw_data_past_end_of_image_is_rejected() {
    let img = build_pe(&[SectionSpec {
        name: name8(b".osrel"),
        virtual_size: 5,
        raw_data: b"hello".to_vec(),
        pointer_override: Some(0x10000),
    }]);
    assert_eq!(pe_section(&img, b".osrel"), Err(PeError::SectionOutOfBounds));
}

#[test]
fn first_matching_section_wins() {
    let img = build_pe(&[
        SectionSpec {
            name: name8(b".osrel"),
            virtual_size: 5,
            raw_data: b"first".to_vec(),
            pointer_override: None,
        },
        SectionSpec {
            name: name8(b".osrel"),
            virtual_size: 6,
            raw_data: b"second".to_vec(),
            pointer_override: None,
        },
    ]);
    assert_eq!(pe_section(&img, b".osrel").unwrap(), Some(b"first".to_vec()));
}

#[test]
fn section_after_a_mismatch_is_found() {
    let img = build_pe(&[
        SectionSpec {
            name: name8(b".text"),
            virtual_size: 4,
            raw_data: b"code".to_vec(),
            pointer_override: None,
        },
        SectionSpec {
            name: name8(b".osrel"),
            virtual_size: 4,
            raw_data: b"data".to_vec(),
            pointer_override: None,
        },
    ]);
    assert_eq!(pe_section(&img, b".osrel").unwrap(), Some(b"data".to_vec()));
}

#[test]
fn garbage_input_yields_nothing() {
    assert_eq!(pe_section(&[], b".osrel").unwrap(), None);
    assert_eq!(pe_section(b"MZ", b".osrel").unwrap(), None);
    let zeros = vec![0u8; 4096];
    assert_eq!(pe_section(&zeros, b".osrel").unwrap(), None);
    let mut bad_sig = osrel_image("ID=lanza\n");
    bad_sig[64] = 0x51;
    assert_eq!(pe_section(&bad_sig, b".osrel").unwrap(), None);
}

#[test]
fn bad_optional_header_magic_yields_nothing() {
    let mut img = osrel_image("ID=lanza\n");
    // Overwrite the optional-header magic with an unknown value.
    put_u16(&mut img, 88, 0x1234);
    assert_eq!(pe_section(&img, b".osrel").unwrap(), None);
}
