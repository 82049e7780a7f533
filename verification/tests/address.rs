//! Addresses between text and canonical bytes, and the numbers that cross
//! the boundary.

#![allow(dead_code)]

use bech32::ToBase32;
use wasmi::{ImportsBuilder, Module, ModuleInstance, ModuleRef};
use wasmi_runtime::abi::{to_sign_extended, to_signed, to_unsigned};
use wasmi_runtime::address::{
    canonicalize, check_prefix, humanize, read_address_text, BECH32_PREFIX_ACC_ADDR,
};
use wasmi_runtime::errors::{AddressError, WasmEngineError};
use wasmi_runtime::instance::ContractInstance;

// ---- a guest to test against -------------------------------------------

/// Unsigned LEB128.
fn leb(mut n: usize) -> Vec<u8> {
    let mut out = Vec::new();
    loop {
        let byte = (n & 0x7f) as u8;
        n >>= 7;
        if n == 0 {
            out.push(byte);
            return out;
        }
        out.push(byte | 0x80);
    }
}

fn section(id: u8, body: &[u8]) -> Vec<u8> {
    let mut out = vec![id];
    out.extend(leb(body.len()));
    out.extend_from_slice(body);
    out
}

fn name(text: &str) -> Vec<u8> {
    let mut out = leb(text.len());
    out.extend_from_slice(text.as_bytes());
    out
}

const I32: u8 = 0x7f;
const I64: u8 = 0x7e;

/// How the guest under test is built.
struct Guest {
    /// Locals and instructions of `allocate`, or `None` to export none.
    allocate: Option<Vec<u8>>,
    /// The type of what `allocate` returns.
    result: u8,
    /// Whether the memory is exported as `memory`.
    export_memory: bool,
    /// Whether the guest imports `env.gas` as function 0.
    import_gas: bool,
}

/// `allocate(len)`: lays out a Region at the next free offset, with a
/// buffer of `len` bytes right behind it, and returns the Region's offset.
/// The first Region lies at 1024.
fn bump_allocator() -> Vec<u8> {
    vec![
        0x01, 0x01, I32, // one local of type i32
        0x23, 0x00, // global.get 0
        0x21, 0x01, // local.set 1
        0x20, 0x01, 0x20, 0x01, 0x41, 0x0c, 0x6a, 0x36, 0x02, 0x00, // address = region + 12
        0x20, 0x01, 0x20, 0x00, 0x36, 0x02, 0x04, // capacity = len
        0x20, 0x01, 0x41, 0x00, 0x36, 0x02, 0x08, // length = 0
        0x20, 0x01, 0x41, 0x0c, 0x6a, 0x20, 0x00, 0x6a, 0x24, 0x00, // next = region + 12 + len
        0x20, 0x01, // local.get 1
        0x0b, // end
    ]
}

/// `allocate(len)`: always returns `value` (0 to 63).
fn constant_allocator(value: u8) -> Vec<u8> {
    vec![0x00, 0x41, value, 0x0b]
}

fn guest_binary(guest: &Guest) -> Vec<u8> {
    let mut binary = vec![0x00, 0x61, 0x73, 0x6d, 0x01, 0x00, 0x00, 0x00];
    // types: 0 = (i32) -> result, 1 = (i32) -> ()
    binary.extend(section(
        1,
        &[0x02, 0x60, 0x01, I32, 0x01, guest.result, 0x60, 0x01, I32, 0x00],
    ));
    if guest.import_gas {
        let mut body = vec![0x01];
        body.extend(name("env"));
        body.extend(name("gas"));
        body.extend_from_slice(&[0x00, 0x01]);
        binary.extend(section(2, &body));
    }
    let code = guest.allocate.clone().unwrap_or_else(|| constant_allocator(0));
    binary.extend(section(3, &[0x01, 0x00]));
    binary.extend(section(5, &[0x01, 0x00, 0x01]));
    // one mutable i32 global, 1024 at the start
    binary.extend(section(6, &[0x01, I32, 0x01, 0x41, 0x80, 0x08, 0x0b]));
    let mut exports = Vec::new();
    let mut count = 0;
    if guest.export_memory {
        exports.extend(name("memory"));
        exports.extend_from_slice(&[0x02, 0x00]);
        count += 1;
    }
    if guest.allocate.is_some() {
        exports.extend(name("allocate"));
        exports.extend_from_slice(&[0x00, if guest.import_gas { 0x01 } else { 0x00 }]);
        count += 1;
    }
    let mut body = vec![count];
    body.extend(exports);
    binary.extend(section(7, &body));
    let mut body = vec![0x01];
    body.extend(leb(code.len()));
    body.extend(code);
    binary.extend(section(10, &body));
    binary
}

struct Env;

impl wasmi::ModuleImportResolver for Env {
    fn resolve_func(
        &self,
        _field_name: &str,
        signature: &wasmi::Signature,
    ) -> Result<wasmi::FuncRef, wasmi::Error> {
        Ok(wasmi::FuncInstance::alloc_host(signature.clone(), 0))
    }
}

fn instantiate(guest: &Guest) -> ModuleRef {
    let module = Module::from_buffer(guest_binary(guest)).expect("the guest is valid");
    let imports = ImportsBuilder::new().with_resolver("env", &Env);
    ModuleInstance::new(&module, &imports)
        .expect("the guest instantiates")
        .assert_no_start()
}

fn instance_of(guest: &Guest, gas_limit: u64) -> ContractInstance {
    ContractInstance::new(instantiate(guest), gas_limit, [7u8; 64], [1u8; 32], [2u8; 32])
}

/// A context over the bump allocator.
fn instance_with_limit(gas_limit: u64) -> ContractInstance {
    instance_of(
        &Guest {
            allocate: Some(bump_allocator()),
            result: I32,
            export_memory: true,
            import_gas: false,
        },
        gas_limit,
    )
}

/// Writes a Region at `region`.
fn put_region(instance: &ContractInstance, region: u32, address: u32, capacity: u32, length: u32) {
    instance.memory.set_value(region, address).unwrap();
    instance.memory.set_value(region + 4, capacity).unwrap();
    instance.memory.set_value(region + 8, length).unwrap();
}

/// Writes `bytes` at `address` and a Region at `region` that describes them.
fn put_buffer(instance: &ContractInstance, region: u32, address: u32, bytes: &[u8]) {
    instance.memory.set(address, bytes).unwrap();
    put_region(instance, region, address, bytes.len() as u32, bytes.len() as u32);
}

fn peek(instance: &ContractInstance, offset: u32, size: usize) -> Vec<u8> {
    instance.memory.get(offset, size).unwrap()
}

fn peek_word(instance: &ContractInstance, offset: u32) -> u32 {
    instance.memory.get_value(offset).unwrap()
}

const PAGE: u32 = 65536;

// ---- numbers --------------------------------------------------------------

#[test]
fn an_offset_is_the_same_bits_read_as_unsigned() {
    assert_eq!(to_unsigned(0), 0);
    assert_eq!(to_unsigned(1024), 1024);
    assert_eq!(to_unsigned(i32::MAX), 0x7fff_ffff);
    assert_eq!(to_unsigned(i32::MIN), 0x8000_0000);
    assert_eq!(to_unsigned(-1), 0xffff_ffff);
    assert_eq!(to_unsigned(-16), 0xffff_fff0);
}

#[test]
fn a_status_is_the_same_bits_read_as_signed() {
    assert_eq!(to_signed(0), 0);
    assert_eq!(to_signed(1024), 1024);
    assert_eq!(to_signed(0x7fff_ffff), i32::MAX);
    assert_eq!(to_signed(0x8000_0000), i32::MIN);
    assert_eq!(to_signed(0xffff_ffff), -1);
}

#[test]
fn the_two_readings_undo_each_other() {
    for value in [0, 1, -1, 1024, -1024, i32::MAX, i32::MIN, 0x1234_5678] {
        assert_eq!(to_signed(to_unsigned(value)), value);
        assert_eq!(to_unsigned(value), value as u32);
    }
    for offset in [0, 1, 0x7fff_ffff, 0x8000_0000, 0xffff_ffff, 0xdead_beef] {
        assert_eq!(to_unsigned(to_signed(offset)), offset);
        assert_eq!(to_signed(offset), offset as i32);
    }
}

#[test]
fn a_gas_amount_is_widened_with_its_sign() {
    assert_eq!(to_sign_extended(0), 0);
    assert_eq!(to_sign_extended(5), 5);
    assert_eq!(to_sign_extended(i32::MAX), 0x7fff_ffff);
    assert_eq!(to_sign_extended(-1), u64::MAX);
    assert_eq!(to_sign_extended(-2), u64::MAX - 1);
    assert_eq!(to_sign_extended(i32::MIN), 0xffff_ffff_8000_0000);
    for value in [0, 7, -7, i32::MAX, i32::MIN] {
        assert_eq!(to_sign_extended(value), value as u64);
    }
}

// ---- status codes ---------------------------------------------------------

#[test]
fn each_address_error_has_its_code() {
    assert_eq!(AddressError::InvalidUtf8.code(), -1);
    assert_eq!(AddressError::Empty.code(), -2);
    assert_eq!(AddressError::InvalidEncoding.code(), -3);
    assert_eq!(AddressError::WrongPrefix.code(), -4);
    assert_eq!(AddressError::InvalidPayload.code(), -5);
    assert_eq!(AddressError::EncodingFailed.code(), -1);
}

// ---- text -----------------------------------------------------------------

const ADDRESS: &str = "secret1qypqxpq9qcrsszg2pvxq6rs0zqg3yyc5a8chmq";
const ELSEWHERE: &str = "cosmos1qypqxpq9qcrsszg2pvxq6rs0zqg3yyc5lzv7xu";

fn canonical() -> Vec<u8> {
    (1..=20).collect()
}

#[test]
fn the_prefix_is_the_networks() {
    assert_eq!(BECH32_PREFIX_ACC_ADDR, "secret");
}

#[test]
fn address_text_is_trimmed() {
    assert_eq!(read_address_text(b"abc"), Ok("abc"));
    assert_eq!(read_address_text(b"  abc \n"), Ok("abc"));
    assert_eq!(read_address_text(b"\t\r\n a b \x0b\x0c"), Ok("a b"));
    // U+00A0, U+2003 and U+3000 are whitespace; U+200B is not
    assert_eq!(read_address_text("\u{a0}\u{2003}x\u{3000}".as_bytes()), Ok("x"));
    assert_eq!(read_address_text("\u{200b}x".as_bytes()), Ok("\u{200b}x"));
}

#[test]
fn address_text_must_be_utf8() {
    assert_eq!(read_address_text(&[0xff]), Err(AddressError::InvalidUtf8));
    assert_eq!(read_address_text(&[b'a', 0xc3]), Err(AddressError::InvalidUtf8));
    assert_eq!(read_address_text(&[0xc0, 0x80]), Err(AddressError::InvalidUtf8));
    assert_eq!(read_address_text(&[0xed, 0xa0, 0x80]), Err(AddressError::InvalidUtf8));
    // bad bytes are found before whitespace is looked at
    assert_eq!(read_address_text(&[b' ', 0xff, b' ']), Err(AddressError::InvalidUtf8));
}

#[test]
fn address_text_must_not_be_empty() {
    assert_eq!(read_address_text(b""), Err(AddressError::Empty));
    assert_eq!(read_address_text(b" "), Err(AddressError::Empty));
    assert_eq!(read_address_text(b" \t\r\n "), Err(AddressError::Empty));
    assert_eq!(read_address_text("\u{2028}\u{2029}".as_bytes()), Err(AddressError::Empty));
}

#[test]
fn only_the_networks_prefix_is_accepted() {
    assert_eq!(check_prefix("secret"), Ok(()));
    assert_eq!(check_prefix("cosmos"), Err(AddressError::WrongPrefix));
    assert_eq!(check_prefix("secre"), Err(AddressError::WrongPrefix));
    assert_eq!(check_prefix("secrets"), Err(AddressError::WrongPrefix));
    assert_eq!(check_prefix("SECRET"), Err(AddressError::WrongPrefix));
    assert_eq!(check_prefix(""), Err(AddressError::WrongPrefix));
}

// ---- canonicalize and humanize ---------------------------------------------

#[test]
fn canonicalize_gives_the_bytes_of_an_address() {
    assert_eq!(canonicalize(ADDRESS.as_bytes()), Ok(canonical()));
    assert_eq!(canonicalize(b"secret1luspjtd0"), Ok(vec![0xff]));
    assert_eq!(canonicalize(b"secret1zajwe8"), Ok(Vec::new()));
}

#[test]
fn canonicalize_trims_the_text() {
    let padded = format!("  {}\r\n", ADDRESS);
    assert_eq!(canonicalize(padded.as_bytes()), Ok(canonical()));
}

#[test]
fn canonicalize_takes_an_address_in_upper_case() {
    assert_eq!(canonicalize(ADDRESS.to_uppercase().as_bytes()), Ok(canonical()));
}

#[test]
fn canonicalize_refuses_in_the_order_of_the_codes() {
    assert_eq!(canonicalize(&[0xff, 0xfe]), Err(AddressError::InvalidUtf8));
    assert_eq!(canonicalize(b"   "), Err(AddressError::Empty));
    assert_eq!(canonicalize(b"balance"), Err(AddressError::InvalidEncoding));
    assert_eq!(canonicalize(b"not an address at all"), Err(AddressError::InvalidEncoding));
    assert_eq!(canonicalize(ELSEWHERE.as_bytes()), Err(AddressError::WrongPrefix));
    assert_eq!(canonicalize(b"secret1pnpm0g7"), Err(AddressError::InvalidPayload));
}

#[test]
fn canonicalize_refuses_a_broken_checksum() {
    let mut broken = ADDRESS.as_bytes().to_vec();
    let last = broken.len() - 1;
    broken[last] = b'p';
    assert_eq!(canonicalize(&broken), Err(AddressError::InvalidEncoding));
    // mixed case is no address either
    let mixed = ADDRESS.replace("secret", "Secret");
    assert_eq!(canonicalize(mixed.as_bytes()), Err(AddressError::InvalidEncoding));
}

#[test]
fn canonicalize_checks_the_prefix_before_the_payload() {
    // one symbol of data spells no whole byte, whatever the prefix
    let elsewhere = bech32::encode("cosmos", vec![bech32::u5::try_from_u8(1).unwrap()]).unwrap();
    assert_eq!(canonicalize(elsewhere.as_bytes()), Err(AddressError::WrongPrefix));
}

#[test]
fn humanize_gives_the_text_of_an_address() {
    assert_eq!(humanize(&canonical()), Ok(ADDRESS.to_string()));
    assert_eq!(humanize(&[0xff]), Ok("secret1luspjtd0".to_string()));
    assert_eq!(humanize(&[]), Ok("secret1zajwe8".to_string()));
}

#[test]
fn humanize_agrees_with_the_codec() {
    for bytes in [vec![], vec![0], vec![0, 1, 2], vec![255; 32], (0..=255).collect::<Vec<u8>>()] {
        let expected = bech32::encode("secret", bytes.to_base32()).unwrap();
        assert_eq!(humanize(&bytes), Ok(expected));
    }
}

#[test]
fn humanize_after_canonicalize_gives_the_address_back() {
    for bytes in [vec![], vec![7], vec![0; 20], canonical(), vec![0xab; 45]] {
        let address = humanize(&bytes).unwrap();
        let back = canonicalize(address.as_bytes()).unwrap();
        assert_eq!(back, bytes);
        assert_eq!(humanize(&back), Ok(address));
    }
    let back = canonicalize(ADDRESS.as_bytes()).unwrap();
    assert_eq!(humanize(&back), Ok(ADDRESS.to_string()));
}

#[test]
fn humanize_after_canonicalize_gives_lower_case_without_whitespace() {
    let shouted = format!(" {} ", ADDRESS.to_uppercase());
    let back = canonicalize(shouted.as_bytes()).unwrap();
    assert_eq!(humanize(&back), Ok(ADDRESS.to_string()));
}

// ---- the two host calls ---------------------------------------------------

const INPUT: i32 = 16;
const OUTPUT: i32 = 48;

/// A context whose guest holds `input` behind the Region at `INPUT` and an
/// empty buffer of `capacity` bytes at 512 behind the Region at `OUTPUT`.
fn instance_with_input(input: &[u8], capacity: u32) -> ContractInstance {
    let instance = instance_with_limit(1000);
    put_buffer(&instance, INPUT as u32, 100, input);
    put_region(&instance, OUTPUT as u32, 512, capacity, 0);
    instance
}

#[test]
fn canonicalize_address_writes_the_canonical_bytes() {
    let mut instance = instance_with_input(ADDRESS.as_bytes(), 64);
    assert_eq!(instance.canonicalize_address_index(INPUT, OUTPUT), Ok(Some(0)));
    assert_eq!(instance.extract_vector(OUTPUT as u32), Ok(canonical()));
    assert_eq!(peek_word(&instance, OUTPUT as u32 + 8), 20);
    assert_eq!(peek(&instance, 512, 21), {
        let mut bytes = canonical();
        bytes.push(0);
        bytes
    });
    assert_eq!(instance.gas_used, 0);
    assert_eq!(instance.gas_used_externally, 0);
}

#[test]
fn canonicalize_address_with_another_prefix_writes_nothing() {
    let mut instance = instance_with_input(ELSEWHERE.as_bytes(), 64);
    let before = peek(&instance, 0, 2048);
    assert_eq!(instance.canonicalize_address_index(INPUT, OUTPUT), Ok(Some(-4)));
    assert_eq!(peek(&instance, 0, 2048), before);
    assert_eq!(peek_word(&instance, OUTPUT as u32 + 8), 0);
}

#[test]
fn canonicalize_address_gives_each_code() {
    let cases: [(&[u8], i32); 5] = [
        (&[0xff, 0xfe], -1),
        (b" \n ", -2),
        (b"secret", -3),
        (ELSEWHERE.as_bytes(), -4),
        (b"secret1pnpm0g7", -5),
    ];
    for (input, code) in cases {
        let mut instance = instance_with_input(input, 64);
        let before = peek(&instance, 0, 2048);
        assert_eq!(instance.canonicalize_address_index(INPUT, OUTPUT), Ok(Some(code)));
        assert_eq!(peek(&instance, 0, 2048), before);
    }
}

#[test]
fn canonicalize_address_gives_a_code_even_where_the_output_cannot_be_written() {
    let mut instance = instance_with_input(ELSEWHERE.as_bytes(), 64);
    put_region(&instance, OUTPUT as u32, 0, 0, 0);
    assert_eq!(instance.canonicalize_address_index(INPUT, OUTPUT), Ok(Some(-4)));
    assert_eq!(instance.canonicalize_address_index(INPUT, -1), Ok(Some(-4)));
}

#[test]
fn canonicalize_address_needs_room_for_the_bytes() {
    let mut instance = instance_with_input(ADDRESS.as_bytes(), 19);
    assert_eq!(
        instance.canonicalize_address_index(INPUT, OUTPUT),
        Err(WasmEngineError::MemoryWriteError)
    );
    assert_eq!(peek(&instance, 512, 20), vec![0; 20]);
    let mut instance = instance_with_input(ADDRESS.as_bytes(), 20);
    assert_eq!(instance.canonicalize_address_index(INPUT, OUTPUT), Ok(Some(0)));
}

#[test]
fn humanize_address_writes_the_text() {
    let mut instance = instance_with_input(&canonical(), 64);
    assert_eq!(instance.humanize_address_index(INPUT, OUTPUT), Ok(Some(0)));
    assert_eq!(instance.extract_vector(OUTPUT as u32), Ok(ADDRESS.as_bytes().to_vec()));
    assert_eq!(peek_word(&instance, OUTPUT as u32 + 8), 45);
    assert_eq!(instance.gas_used, 0);
    assert_eq!(instance.gas_used_externally, 0);
}

#[test]
fn humanize_address_without_room_for_the_text_gives_the_failure_status() {
    // the text has 45 bytes
    let mut instance = instance_with_input(&canonical(), 44);
    let before = peek(&instance, 0, 2048);
    assert_eq!(instance.humanize_address_index(INPUT, OUTPUT), Ok(Some(-1)));
    assert_eq!(peek(&instance, 0, 2048), before);
    let mut instance = instance_with_input(&canonical(), 45);
    assert_eq!(instance.humanize_address_index(INPUT, OUTPUT), Ok(Some(0)));
    assert_eq!(instance.extract_vector(OUTPUT as u32), Ok(ADDRESS.as_bytes().to_vec()));
}

#[test]
fn humanize_address_with_an_output_outside_the_memory_gives_the_failure_status() {
    let mut instance = instance_with_input(&canonical(), 64);
    // the buffer would run past the end of the memory
    put_region(&instance, OUTPUT as u32, PAGE - 44, 64, 0);
    let before = peek(&instance, 0, 2048);
    assert_eq!(instance.humanize_address_index(INPUT, OUTPUT), Ok(Some(-1)));
    assert_eq!(peek(&instance, 0, 2048), before);
    assert_eq!(peek(&instance, PAGE - 44, 44), vec![0; 44]);
    // the Region itself lies outside
    assert_eq!(instance.humanize_address_index(INPUT, -1), Ok(Some(-1)));
    // a null address
    put_region(&instance, OUTPUT as u32, 0, 64, 0);
    assert_eq!(instance.humanize_address_index(INPUT, OUTPUT), Ok(Some(-1)));
    assert_eq!(instance.gas_used, 0);
    assert_eq!(instance.gas_used_externally, 0);
}

#[test]
fn humanize_address_with_an_unreadable_input_gives_the_failure_status() {
    let mut instance = instance_with_input(&canonical(), 64);
    let before = peek(&instance, 0, 2048);
    assert_eq!(instance.humanize_address_index(-1, OUTPUT), Ok(Some(-1)));
    assert_eq!(instance.humanize_address_index(PAGE as i32, OUTPUT), Ok(Some(-1)));
    put_region(&instance, INPUT as u32, 0, 20, 20);
    assert_eq!(instance.humanize_address_index(INPUT, OUTPUT), Ok(Some(-1)));
    put_region(&instance, INPUT as u32, PAGE - 10, 20, 20);
    assert_eq!(instance.humanize_address_index(INPUT, OUTPUT), Ok(Some(-1)));
    assert_eq!(peek(&instance, 0, 16), before[..16].to_vec());
    assert_eq!(peek(&instance, 28, 2020), before[28..].to_vec());
}

#[test]
fn humanize_address_without_gas_ends_the_invocation() {
    let mut instance = instance_with_input(&canonical(), 64);
    assert_eq!(instance.gas_index(1001), Err(WasmEngineError::OutOfGas));
    let before = peek(&instance, 0, 2048);
    assert_eq!(instance.humanize_address_index(INPUT, OUTPUT), Err(WasmEngineError::OutOfGas));
    // also where a Region cannot be read or written
    assert_eq!(instance.humanize_address_index(-1, OUTPUT), Err(WasmEngineError::OutOfGas));
    assert_eq!(instance.humanize_address_index(INPUT, -1), Err(WasmEngineError::OutOfGas));
    assert_eq!(peek(&instance, 0, 2048), before);
}

#[test]
fn canonicalize_address_with_a_region_that_cannot_be_used_ends_the_invocation() {
    let mut instance = instance_with_input(ADDRESS.as_bytes(), 64);
    assert_eq!(
        instance.canonicalize_address_index(-1, OUTPUT),
        Err(WasmEngineError::MemoryReadError)
    );
    assert_eq!(
        instance.canonicalize_address_index(INPUT, -1),
        Err(WasmEngineError::MemoryWriteError)
    );
}

#[test]
fn the_two_address_calls_undo_each_other() {
    let mut instance = instance_with_input(ADDRESS.as_bytes(), 64);
    assert_eq!(instance.canonicalize_address_index(INPUT, OUTPUT), Ok(Some(0)));
    // back from the output into a third buffer
    put_region(&instance, 80, 768, 64, 0);
    assert_eq!(instance.humanize_address_index(OUTPUT, 80), Ok(Some(0)));
    assert_eq!(instance.extract_vector(80), Ok(ADDRESS.as_bytes().to_vec()));
}
