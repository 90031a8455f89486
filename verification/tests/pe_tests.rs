use winvd::pe::{CodeIdParseError, PeCodeId, PeFile, PeParseError};

/// A minimal PE image: DOS magic, header offset 0x40, `PE\0\0`
/// signature, the given COFF timestamp, a PE32+ optional header and the
/// given image size.
fn sample_pe(timestamp: u32, image_size: u32) -> Vec<u8> {
    let mut d = vec![0u8; 0x40 + 84];
    d[0] = 0x4d; // 'M'
    d[1] = 0x5a; // 'Z'
    d[0x3c] = 0x40; // header offset
    d[0x40] = 0x50; // 'P'
    d[0x41] = 0x45; // 'E'
    d[0x48..0x4c].copy_from_slice(&timestamp.to_le_bytes());
    d[0x58] = 0x0b; // optional magic 0x20B (PE32+)
    d[0x59] = 0x02;
    d[0x90..0x94].copy_from_slice(&image_size.to_le_bytes());
    d
}

#[test]
fn code_id_read_from_headers() {
    let data = sample_pe(0x665F_1234, 0x0020_4000);
    assert_eq!(
        PeCodeId::for_file_data(&data),
        Ok(PeCodeId { timestamp: 0x665F_1234, image_size: 0x0020_4000 })
    );
}

#[test]
fn code_id_accepts_32_bit_optional_header() {
    let mut data = sample_pe(7, 9);
    data[0x58] = 0x0b;
    data[0x59] = 0x01; // 0x10B
    assert_eq!(PeCodeId::for_file_data(&data), Ok(PeCodeId { timestamp: 7, image_size: 9 }));
}

#[test]
fn code_id_errors_name_the_defect() {
    assert_eq!(PeCodeId::for_file_data(&vec![0u8; 8]), Err(PeParseError::TooSmall));

    let mut no_mz = sample_pe(1, 2);
    no_mz[0] = 0;
    assert_eq!(PeCodeId::for_file_data(&no_mz), Err(PeParseError::NotMz));

    let mut truncated = sample_pe(1, 2);
    truncated[0x3c] = 0xff;
    truncated[0x3d] = 0xff;
    assert_eq!(PeCodeId::for_file_data(&truncated), Err(PeParseError::Truncated));

    let mut bad_sig = sample_pe(1, 2);
    bad_sig[0x41] = 0x58;
    assert_eq!(PeCodeId::for_file_data(&bad_sig), Err(PeParseError::BadSignature));

    let mut bad_magic = sample_pe(1, 2);
    bad_magic[0x58] = 0x07;
    bad_magic[0x59] = 0x01;
    assert_eq!(PeCodeId::for_file_data(&bad_magic), Err(PeParseError::BadOptionalMagic));
}

#[test]
fn code_id_parses_from_text() {
    assert_eq!(
        PeCodeId::from_str("665F12340020400f"),
        Ok(PeCodeId { timestamp: 0x665F_1234, image_size: 0x0020_400f })
    );
    assert_eq!(
        PeCodeId::from_str("0000000a1"),
        Ok(PeCodeId { timestamp: 0xa, image_size: 0x1 })
    );
    assert_eq!(
        PeCodeId::from_str("AbCdEf015"),
        Ok(PeCodeId { timestamp: 0xabcdef01, image_size: 5 })
    );
}

#[test]
fn code_id_text_errors_name_the_defect() {
    assert_eq!(PeCodeId::from_str("12345678"), Err(CodeIdParseError::InvalidLength));
    assert_eq!(
        PeCodeId::from_str("12345678123456789"),
        Err(CodeIdParseError::InvalidLength)
    );
    assert_eq!(PeCodeId::from_str("1234567g1"), Err(CodeIdParseError::InvalidTimestamp));
    assert_eq!(PeCodeId::from_str("12345678g"), Err(CodeIdParseError::InvalidImageSize));
}

#[test]
fn file_stem_strips_directory_and_extension() {
    let f = PeFile::new(String::from("C:\\Windows\\System32\\twinui.pcshell.dll"));
    assert_eq!(f.file_stem().as_deref(), Some("twinui.pcshell"));
    let f = PeFile::new(String::from("/usr/lib/actxprxy.dll"));
    assert_eq!(f.file_stem().as_deref(), Some("actxprxy"));
    let f = PeFile::new(String::from("plain"));
    assert_eq!(f.file_stem().as_deref(), Some("plain"));
    let f = PeFile::new(String::from(".hidden"));
    assert_eq!(f.file_stem().as_deref(), Some(".hidden"));
}

#[test]
fn file_stem_absent_when_path_names_no_file() {
    let f = PeFile::new(String::from("C:\\Windows\\System32\\"));
    assert_eq!(f.file_stem(), None);
    let f = PeFile::new(String::from(""));
    assert_eq!(f.file_stem(), None);
}

#[test]
fn pe_file_remembers_paths() {
    let mut f = PeFile::new(String::from("twinui.pcshell.dll"));
    assert_eq!(f.dll_path().as_str(), "twinui.pcshell.dll");
    assert_eq!(f.pdb_path(), &None);
    f.set_pdb_path(String::from("Symbols/twinui.pcshell.pdb"));
    assert_eq!(f.pdb_path().as_deref(), Some("Symbols/twinui.pcshell.pdb"));
}

#[test]
fn pe_file_reads_code_id_from_bytes() {
    let f = PeFile::new(String::from("twinui.pcshell.dll"));
    let data = sample_pe(0x1111_2222, 0x3333);
    assert_eq!(
        f.pe_code_id(&data),
        Ok(PeCodeId { timestamp: 0x1111_2222, image_size: 0x3333 })
    );
}
