//! Validation of client inputs.
//!
//! Every value a client hands the gateway — ECU addresses, baud rates,
//! parameter and routine identifiers, session types, security levels, raw
//! hexadecimal strings — is checked here before it can reach the bus.

use vstd::prelude::*;
use vstd::string::StringSliceAdditionalSpecFns;
use crate::constants::addresses;
use crate::constants::baud;
use crate::constants::dpf_routines;
use crate::constants::limits;
use crate::constants::uds;

verus! {

/// A rejected input: the field at fault and a short message.
#[derive(Debug, Clone)]
pub struct ValidationError {
    pub field: String,
    pub message: String,
}

impl ValidationError {
    /// Builds an error for one field.
    pub fn new(field: &str, message: &str) -> (r: Self)
        ensures
            r.field@ == field@,
            r.message@ == message@,
    {
        Self { field: field.to_owned(), message: message.to_owned() }
    }
}

/// The result of a validation.
pub type ValidationResult<T> = Result<T, ValidationError>;

/// Accepts an ECU address on the allowed list.
pub fn validate_ecu_address(addr: u8) -> (r: ValidationResult<u8>)
    ensures
        addresses::is_valid_ecu_spec(addr) ==> r == Ok::<u8, ValidationError>(addr),
        !addresses::is_valid_ecu_spec(addr) ==> (r matches Err(e) && e.field@ == "ecu_address"@),
{
    if addresses::is_valid_ecu(addr) {
        Ok(addr)
    } else {
        Err(ValidationError::new("ecu_address", "not a known ECU address"))
    }
}

/// Accepts an ECU address, substituting the engine controller when none is
/// given.
pub fn validate_ecu_address_or_default(addr: Option<u8>) -> (r: ValidationResult<u8>)
    ensures
        match addr {
            Some(a) => (addresses::is_valid_ecu_spec(a) ==> r == Ok::<u8, ValidationError>(a))
                && (!addresses::is_valid_ecu_spec(a) ==> r is Err),
            None => r == Ok::<u8, ValidationError>(addresses::DEFAULT_ECU),
        },
{
    match addr {
        Some(a) => validate_ecu_address(a),
        None => Ok(addresses::DEFAULT_ECU),
    }
}

/// Accepts a baud rate within the supported range.
pub fn validate_baud_rate(rate: u32) -> (r: ValidationResult<u32>)
    ensures
        baud::MIN_BAUD <= rate <= baud::MAX_BAUD ==> r == Ok::<u32, ValidationError>(rate),
        !(baud::MIN_BAUD <= rate <= baud::MAX_BAUD) ==> (r matches Err(e) && e.field@
            == "baud_rate"@),
{
    if rate >= baud::MIN_BAUD && rate <= baud::MAX_BAUD {
        Ok(rate)
    } else {
        Err(ValidationError::new("baud_rate", "baud rate out of range"))
    }
}

/// Accepts a baud rate, substituting the K-Line default when none is given.
pub fn validate_baud_rate_or_default(rate: Option<u32>) -> (r: ValidationResult<u32>)
    ensures
        match rate {
            Some(x) => (baud::MIN_BAUD <= x <= baud::MAX_BAUD ==> r == Ok::<u32, ValidationError>(
                x,
            )) && (!(baud::MIN_BAUD <= x <= baud::MAX_BAUD) ==> r is Err),
            None => r == Ok::<u32, ValidationError>(baud::KLINE_DEFAULT),
        },
{
    match rate {
        Some(x) => validate_baud_rate(x),
        None => Ok(baud::KLINE_DEFAULT),
    }
}

/// A reserved parameter identifier no request may touch.
pub open spec fn pid_restricted(pid: u16) -> bool {
    pid == 0x0000 || pid == 0xFFFF
}

/// The identifier ranges a request may read: standard OBD-II parameters,
/// extended manufacturer parameters, and the manufacturer data identifiers.
pub open spec fn pid_in_ranges(pid: u16) -> bool {
    pid <= 0xFF || (0x0100 <= pid && pid <= 0x01FF) || 0x1000 <= pid
}

/// An identifier a request may read: inside the ranges and not reserved.
pub open spec fn pid_valid_spec(pid: u16) -> bool {
    !pid_restricted(pid) && pid_in_ranges(pid)
}

/// Accepts a parameter identifier that is inside the readable ranges and
/// not reserved.
pub fn validate_pid(pid: u16) -> (r: ValidationResult<u16>)
    ensures
        pid_valid_spec(pid) ==> r == Ok::<u16, ValidationError>(pid),
        !pid_valid_spec(pid) ==> (r matches Err(e) && e.field@ == "pid"@),
{
    if pid == 0x0000 || pid == 0xFFFF {
        return Err(ValidationError::new("pid", "identifier is reserved"));
    }
    if pid <= 0xFF || (0x0100 <= pid && pid <= 0x01FF) || 0x1000 <= pid {
        Ok(pid)
    } else {
        Err(ValidationError::new("pid", "identifier outside the readable ranges"))
    }
}

/// Accepts a data identifier; the rules are those of `validate_pid`.
pub fn validate_did(did: u16) -> (r: ValidationResult<u16>)
    ensures
        pid_valid_spec(did) ==> r == Ok::<u16, ValidationError>(did),
        !pid_valid_spec(did) ==> (r matches Err(e) && e.field@ == "did"@),
{
    match validate_pid(did) {
        Ok(d) => Ok(d),
        Err(e) => Err(ValidationError::new("did", e.message.as_str())),
    }
}

/// No identifier occurs twice.
pub open spec fn no_duplicates(s: Seq<u16>) -> bool {
    forall|i: int, j: int| 0 <= i < j < s.len() ==> s[i] != s[j]
}

/// A list of identifiers a request may read: non-empty, within the size
/// limit, free of duplicates, every entry valid.
pub open spec fn pid_list_valid_spec(s: Seq<u16>, max: int) -> bool {
    &&& s.len() >= 1
    &&& s.len() <= max
    &&& no_duplicates(s)
    &&& forall|i: int| 0 <= i < s.len() ==> pid_valid_spec(#[trigger] s[i])
}

fn validate_id_list(ids: &[u16], max: usize, field: &str) -> (r: ValidationResult<()>)
    ensures
        pid_list_valid_spec(ids@, max as int) ==> r == Ok::<(), ValidationError>(()),
        !pid_list_valid_spec(ids@, max as int) ==> r is Err,
{
    if ids.len() == 0 {
        return Err(ValidationError::new(field, "list is empty"));
    }
    if ids.len() > max {
        return Err(ValidationError::new(field, "too many identifiers"));
    }
    let mut i: usize = 0;
    while i < ids.len()
        invariant
            0 <= i <= ids@.len(),
            forall|a: int, b: int| 0 <= a < b < i ==> ids@[a] != ids@[b],
            forall|a: int| 0 <= a < i ==> pid_valid_spec(#[trigger] ids@[a]),
        decreases ids@.len() - i,
    {
        let mut j: usize = 0;
        while j < i
            invariant
                0 <= j <= i < ids@.len(),
                forall|b: int| 0 <= b < j ==> ids@[b] != ids@[i as int],
            decreases i - j,
        {
            if ids[j] == ids[i] {
                return Err(ValidationError::new(field, "duplicate identifier"));
            }
            j = j + 1;
        }
        match validate_pid(ids[i]) {
            Ok(_) => {},
            Err(e) => {
                return Err(e);
            },
        }
        i = i + 1;
    }
    Ok(())
}

/// Accepts a list of parameter identifiers: non-empty, at most the request
/// limit, free of duplicates, every entry valid.
pub fn validate_pids(pids: &[u16]) -> (r: ValidationResult<()>)
    ensures
        pid_list_valid_spec(pids@, limits::MAX_PIDS_PER_REQUEST as int) ==> r == Ok::<
            (),
            ValidationError,
        >(()),
        !pid_list_valid_spec(pids@, limits::MAX_PIDS_PER_REQUEST as int) ==> r is Err,
{
    validate_id_list(pids, limits::MAX_PIDS_PER_REQUEST, "pids")
}

/// Accepts a list of data identifiers under the same rules.
pub fn validate_dids(dids: &[u16]) -> (r: ValidationResult<()>)
    ensures
        pid_list_valid_spec(dids@, limits::MAX_DIDS_PER_REQUEST as int) ==> r == Ok::<
            (),
            ValidationError,
        >(()),
        !pid_list_valid_spec(dids@, limits::MAX_DIDS_PER_REQUEST as int) ==> r is Err,
{
    validate_id_list(dids, limits::MAX_DIDS_PER_REQUEST, "dids")
}

/// Accepts a routine identifier on the allowed list.
pub fn validate_routine_id(routine_id: u16) -> (r: ValidationResult<u16>)
    ensures
        dpf_routines::is_valid_routine_spec(routine_id) ==> r == Ok::<u16, ValidationError>(
            routine_id,
        ),
        !dpf_routines::is_valid_routine_spec(routine_id) ==> (r matches Err(e) && e.field@
            == "routine_id"@),
{
    if dpf_routines::is_valid_routine(routine_id) {
        Ok(routine_id)
    } else {
        Err(ValidationError::new("routine_id", "not an allowed routine"))
    }
}

/// The RoutineControl sub-functions a client may use.
pub open spec fn sub_function_valid_spec(sub_fn: u8) -> bool {
    sub_fn == uds::ROUTINE_START || sub_fn == uds::ROUTINE_STOP || sub_fn
        == uds::ROUTINE_REQUEST_RESULTS
}

/// Accepts a RoutineControl sub-function: start, stop or request results.
pub fn validate_sub_function(sub_fn: u8) -> (r: ValidationResult<u8>)
    ensures
        sub_function_valid_spec(sub_fn) ==> r == Ok::<u8, ValidationError>(sub_fn),
        !sub_function_valid_spec(sub_fn) ==> (r matches Err(e) && e.field@ == "sub_function"@),
{
    if sub_fn == uds::ROUTINE_START || sub_fn == uds::ROUTINE_STOP || sub_fn
        == uds::ROUTINE_REQUEST_RESULTS {
        Ok(sub_fn)
    } else {
        Err(ValidationError::new("sub_function", "not a RoutineControl sub-function"))
    }
}

/// Routine payload data a client may attach: within the size limit and free
/// of the negative-response marker byte.
pub open spec fn routine_data_valid_spec(data: Seq<u8>, max: int) -> bool {
    data.len() <= max && forall|i: int| 0 <= i < data.len() ==> data[i] != 0x7F
}

/// Accepts routine payload data.
pub fn validate_routine_data(data: &[u8]) -> (r: ValidationResult<()>)
    ensures
        routine_data_valid_spec(data@, limits::MAX_ROUTINE_DATA_SIZE as int) ==> r == Ok::<
            (),
            ValidationError,
        >(()),
        !routine_data_valid_spec(data@, limits::MAX_ROUTINE_DATA_SIZE as int) ==> (r matches Err(e)
            && e.field@ == "data"@),
{
    if data.len() > limits::MAX_ROUTINE_DATA_SIZE {
        return Err(ValidationError::new("data", "routine data too large"));
    }
    let mut i: usize = 0;
    while i < data.len()
        invariant
            0 <= i <= data@.len(),
            forall|j: int| 0 <= j < i ==> data@[j] != 0x7F,
        decreases data@.len() - i,
    {
        if data[i] == 0x7F {
            return Err(ValidationError::new("data", "negative response marker in data"));
        }
        i = i + 1;
    }
    Ok(())
}

/// The diagnostic session types a client may start.
pub open spec fn session_type_valid_spec(session_type: u8) -> bool {
    session_type == uds::SESSION_DEFAULT || session_type == uds::SESSION_PROGRAMMING
        || session_type == uds::SESSION_EXTENDED
}

/// Accepts a diagnostic session type: default, programming or extended.
pub fn validate_session_type(session_type: u8) -> (r: ValidationResult<u8>)
    ensures
        session_type_valid_spec(session_type) ==> r == Ok::<u8, ValidationError>(session_type),
        !session_type_valid_spec(session_type) ==> (r matches Err(e) && e.field@
            == "session_type"@),
{
    if session_type == uds::SESSION_DEFAULT || session_type == uds::SESSION_PROGRAMMING
        || session_type == uds::SESSION_EXTENDED {
        Ok(session_type)
    } else {
        Err(ValidationError::new("session_type", "not an allowed session type"))
    }
}

/// Accepts a SecurityAccess level: seed requests and key responses live in
/// 0x01 to 0x42.
pub fn validate_security_level(level: u8) -> (r: ValidationResult<u8>)
    ensures
        0x01 <= level <= 0x42 ==> r == Ok::<u8, ValidationError>(level),
        !(0x01 <= level <= 0x42) ==> (r matches Err(e) && e.field@ == "security_level"@),
{
    if 0x01 <= level && level <= 0x42 {
        Ok(level)
    } else {
        Err(ValidationError::new("security_level", "security level out of range"))
    }
}

/// Accepts an adapter index that names one of the present devices.
pub fn validate_device_index(index: i32, max_devices: usize) -> (r: ValidationResult<usize>)
    ensures
        0 <= index && index < max_devices ==> r == Ok::<usize, ValidationError>(index as usize),
        !(0 <= index && index < max_devices) ==> (r matches Err(e) && e.field@
            == "device_index"@),
{
    if index < 0 {
        return Err(ValidationError::new("device_index", "index must be non-negative"));
    }
    let idx = index as usize;
    if idx >= max_devices {
        return Err(ValidationError::new("device_index", "index beyond the last device"));
    }
    Ok(idx)
}

// ------------------------------------------------------------------------
// Hexadecimal input
// ------------------------------------------------------------------------

/// An ASCII hexadecimal digit, either case.
pub open spec fn is_hex_digit_byte(c: u8) -> bool {
    (0x30 <= c && c <= 0x39) || (0x41 <= c && c <= 0x46) || (0x61 <= c && c <= 0x66)
}

/// The value of one hexadecimal digit.
pub open spec fn hex_val(c: u8) -> u8
    recommends
        is_hex_digit_byte(c),
{
    if 0x30 <= c && c <= 0x39 {
        (c - 0x30) as u8
    } else if 0x41 <= c && c <= 0x46 {
        (c - 0x37) as u8
    } else {
        (c - 0x57) as u8
    }
}

/// The hexadecimal digits of a byte string, everything else dropped.
pub open spec fn hex_digits_of(s: Seq<u8>) -> Seq<u8>
    decreases s.len(),
{
    if s.len() == 0 {
        Seq::empty()
    } else if is_hex_digit_byte(s.last()) {
        hex_digits_of(s.drop_last()).push(s.last())
    } else {
        hex_digits_of(s.drop_last())
    }
}

/// The bytes encoded by an even-length string of hexadecimal digits.
pub open spec fn hex_pairs(d: Seq<u8>) -> Seq<u8>
    recommends
        d.len() % 2 == 0,
{
    Seq::new((d.len() / 2) as nat, |i: int| (hex_val(d[2 * i]) * 16 + hex_val(d[2 * i + 1])) as u8)
}

proof fn lemma_hex_digits_are_digits(s: Seq<u8>)
    ensures
        forall|j: int|
            0 <= j < hex_digits_of(s).len() ==> is_hex_digit_byte(#[trigger] hex_digits_of(s)[j]),
    decreases s.len(),
{
    if s.len() > 0 {
        lemma_hex_digits_are_digits(s.drop_last());
        if is_hex_digit_byte(s.last()) {
            let prev = hex_digits_of(s.drop_last());
            assert forall|j: int| 0 <= j < hex_digits_of(s).len() implies is_hex_digit_byte(
                #[trigger] hex_digits_of(s)[j],
            ) by {
                if j < prev.len() {
                    assert(hex_digits_of(s)[j] == prev[j]);
                } else {
                    assert(hex_digits_of(s)[j] == s.last());
                }
            }
        }
    }
}

fn hex_val_exec(c: u8) -> (r: u8)
    requires
        is_hex_digit_byte(c),
    ensures
        r == hex_val(c),
        r < 16,
{
    if 0x30 <= c && c <= 0x39 {
        c - 0x30
    } else if 0x41 <= c && c <= 0x46 {
        c - 0x37
    } else {
        c - 0x57
    }
}

/// Accepts a hexadecimal string: non-empty, within the length limit, and —
/// after dropping every byte that is not a hexadecimal digit — of even
/// digit count.  Returns the encoded bytes.
pub fn validate_hex_string(hex: &str) -> (r: ValidationResult<Vec<u8>>)
    ensures
        (r matches Ok(v) ==> hex@.len() > 0 && hex.spec_bytes().len()
            <= limits::MAX_HEX_STRING_LENGTH && hex_digits_of(hex.spec_bytes()).len() % 2 == 0
            && v@ == hex_pairs(hex_digits_of(hex.spec_bytes()))),
        (r is Err ==> hex@.len() == 0 || hex.spec_bytes().len() > limits::MAX_HEX_STRING_LENGTH
            || hex_digits_of(hex.spec_bytes()).len() % 2 != 0),
{
    if hex.is_empty() {
        return Err(ValidationError::new("hex_data", "hex string is empty"));
    }
    let b: &[u8] = hex.as_bytes();
    if b.len() > limits::MAX_HEX_STRING_LENGTH {
        return Err(ValidationError::new("hex_data", "hex string too long"));
    }
    let mut digits: Vec<u8> = Vec::new();
    let mut i: usize = 0;
    while i < b.len()
        invariant
            0 <= i <= b@.len(),
            digits@ == hex_digits_of(b@.take(i as int)),
        decreases b@.len() - i,
    {
        proof {
            assert(b@.take(i as int + 1).drop_last() =~= b@.take(i as int));
            assert(b@.take(i as int + 1).last() == b@[i as int]);
        }
        let c = b[i];
        if (0x30 <= c && c <= 0x39) || (0x41 <= c && c <= 0x46) || (0x61 <= c && c <= 0x66) {
            digits.push(c);
        }
        i = i + 1;
    }
    proof {
        assert(b@.take(b@.len() as int) =~= b@);
    }
    if digits.len() % 2 != 0 {
        return Err(ValidationError::new("hex_data", "odd number of hex digits"));
    }
    proof {
        lemma_hex_digits_are_digits(hex.spec_bytes());
    }
    let mut out: Vec<u8> = Vec::new();
    let mut k: usize = 0;
    while k < digits.len()
        invariant
            digits@ == hex_digits_of(hex.spec_bytes()),
            digits@.len() % 2 == 0,
            k % 2 == 0,
            0 <= k <= digits@.len(),
            out@.len() == k / 2,
            forall|j: int| 0 <= j < out@.len() ==> out@[j] == hex_pairs(digits@)[j],
            forall|j: int| 0 <= j < digits@.len() ==> is_hex_digit_byte(#[trigger] digits@[j]),
        decreases digits@.len() - k,
    {
        let hi = hex_val_exec(digits[k]);
        let lo = hex_val_exec(digits[k + 1]);
        let ghost j = k as int / 2;
        proof {
            vstd::arithmetic::div_mod::lemma_fundamental_div_mod(k as int, 2);
            assert(2 * j == k);
        }
        out.push(hi * 16 + lo);
        k = k + 2;
    }
    proof {
        assert(out@ =~= hex_pairs(digits@));
    }
    Ok(out)
}

// ------------------------------------------------------------------------
// Diesel parameter categories
// ------------------------------------------------------------------------

/// ASCII whitespace, the kind trimmed from category names.
pub open spec fn is_ascii_ws(c: u8) -> bool {
    c == 0x20 || (0x09 <= c && c <= 0x0D)
}

/// A byte string with leading ASCII whitespace removed.
pub open spec fn trim_front(s: Seq<u8>) -> Seq<u8>
    decreases s.len(),
{
    if s.len() > 0 && is_ascii_ws(s[0]) {
        trim_front(s.drop_first())
    } else {
        s
    }
}

/// A byte string with trailing ASCII whitespace removed.
pub open spec fn trim_back(s: Seq<u8>) -> Seq<u8>
    decreases s.len(),
{
    if s.len() > 0 && is_ascii_ws(s.last()) {
        trim_back(s.drop_last())
    } else {
        s
    }
}

/// ASCII letters lowered, the rest untouched.
pub open spec fn ascii_lower(s: Seq<u8>) -> Seq<u8> {
    s.map_values(
        |c: u8|
            if 0x41 <= c && c <= 0x5A {
                (c + 0x20) as u8
            } else {
                c
            },
    )
}

/// A category name normalized: trimmed of ASCII whitespace, ASCII-lowered.
pub open spec fn normalize_category(s: Seq<u8>) -> Seq<u8> {
    ascii_lower(trim_back(trim_front(s)))
}

/// The text of the `i`-th diesel parameter category.
pub open spec fn category_name_view(i: int) -> Seq<char> {
    if i == 0 {
        "fuel_system"@
    } else if i == 1 {
        "turbo"@
    } else if i == 2 {
        "egr"@
    } else if i == 3 {
        "temperatures"@
    } else if i == 4 {
        "dpf"@
    } else if i == 5 {
        "glow_plugs"@
    } else if i == 6 {
        "engine"@
    } else {
        "electrical"@
    }
}

/// The bytes of the `i`-th diesel parameter category.
pub open spec fn category_bytes_view(i: int) -> Seq<u8> {
    if i == 0 {
        seq![
            'f' as u8,
            'u' as u8,
            'e' as u8,
            'l' as u8,
            '_' as u8,
            's' as u8,
            'y' as u8,
            's' as u8,
            't' as u8,
            'e' as u8,
            'm' as u8,
        ]
    } else if i == 1 {
        seq!['t' as u8, 'u' as u8, 'r' as u8, 'b' as u8, 'o' as u8]
    } else if i == 2 {
        seq!['e' as u8, 'g' as u8, 'r' as u8]
    } else if i == 3 {
        seq![
            't' as u8,
            'e' as u8,
            'm' as u8,
            'p' as u8,
            'e' as u8,
            'r' as u8,
            'a' as u8,
            't' as u8,
            'u' as u8,
            'r' as u8,
            'e' as u8,
            's' as u8,
        ]
    } else if i == 4 {
        seq!['d' as u8, 'p' as u8, 'f' as u8]
    } else if i == 5 {
        seq![
            'g' as u8,
            'l' as u8,
            'o' as u8,
            'w' as u8,
            '_' as u8,
            'p' as u8,
            'l' as u8,
            'u' as u8,
            'g' as u8,
            's' as u8,
        ]
    } else if i == 6 {
        seq!['e' as u8, 'n' as u8, 'g' as u8, 'i' as u8, 'n' as u8, 'e' as u8]
    } else {
        seq![
            'e' as u8,
            'l' as u8,
            'e' as u8,
            'c' as u8,
            't' as u8,
            'r' as u8,
            'i' as u8,
            'c' as u8,
            'a' as u8,
            'l' as u8,
        ]
    }
}

fn category_bytes(i: usize) -> (r: Vec<u8>)
    requires
        i < 8,
    ensures
        r@ == category_bytes_view(i as int),
{
    let r: Vec<u8> = if i == 0 {
        vec![0x66, 0x75, 0x65, 0x6C, 0x5F, 0x73, 0x79, 0x73, 0x74, 0x65, 0x6D]
    } else if i == 1 {
        vec![0x74, 0x75, 0x72, 0x62, 0x6F]
    } else if i == 2 {
        vec![0x65, 0x67, 0x72]
    } else if i == 3 {
        vec![0x74, 0x65, 0x6D, 0x70, 0x65, 0x72, 0x61, 0x74, 0x75, 0x72, 0x65, 0x73]
    } else if i == 4 {
        vec![0x64, 0x70, 0x66]
    } else if i == 5 {
        vec![0x67, 0x6C, 0x6F, 0x77, 0x5F, 0x70, 0x6C, 0x75, 0x67, 0x73]
    } else if i == 6 {
        vec![0x65, 0x6E, 0x67, 0x69, 0x6E, 0x65]
    } else {
        vec![0x65, 0x6C, 0x65, 0x63, 0x74, 0x72, 0x69, 0x63, 0x61, 0x6C]
    };
    proof {
        assert(r@ =~= category_bytes_view(i as int));
    }
    r
}

fn category_name(i: usize) -> (r: &'static str)
    requires
        i < 8,
    ensures
        r@ == category_name_view(i as int),
{
    if i == 0 {
        "fuel_system"
    } else if i == 1 {
        "turbo"
    } else if i == 2 {
        "egr"
    } else if i == 3 {
        "temperatures"
    } else if i == 4 {
        "dpf"
    } else if i == 5 {
        "glow_plugs"
    } else if i == 6 {
        "engine"
    } else {
        "electrical"
    }
}

/// The eight diesel parameter category names.
pub fn get_diesel_categories() -> (r: Vec<String>)
    ensures
        r@.len() == 8,
        forall|i: int| 0 <= i < 8 ==> (#[trigger] r@[i])@ == category_name_view(i),
{
    let mut out: Vec<String> = Vec::new();
    let mut i: usize = 0;
    while i < 8
        invariant
            0 <= i <= 8,
            out@.len() == i,
            forall|j: int| 0 <= j < i ==> (#[trigger] out@[j])@ == category_name_view(j),
        decreases 8 - i,
    {
        out.push(category_name(i).to_owned());
        i = i + 1;
    }
    out
}

fn bytes_eq(a: &[u8], b: &[u8]) -> (r: bool)
    ensures
        r == (a@ == b@),
{
    if a.len() != b.len() {
        proof {
            assert(a@ != b@);
        }
        return false;
    }
    let mut i: usize = 0;
    while i < a.len()
        invariant
            a@.len() == b@.len(),
            0 <= i <= a@.len(),
            forall|j: int| 0 <= j < i ==> a@[j] == b@[j],
        decreases a@.len() - i,
    {
        if a[i] != b[i] {
            proof {
                assert(a@ != b@);
            }
            return false;
        }
        i = i + 1;
    }
    proof {
        assert(a@ =~= b@);
    }
    true
}

fn is_ws_byte(c: u8) -> (r: bool)
    ensures
        r == is_ascii_ws(c),
{
    c == 0x20 || (0x09 <= c && c <= 0x0D)
}

fn normalize_exec(s: &[u8]) -> (r: Vec<u8>)
    ensures
        r@ == normalize_category(s@),
{
    let mut start: usize = 0;
    proof {
        assert(s@.skip(0) =~= s@);
    }
    while start < s.len() && is_ws_byte(s[start])
        invariant
            0 <= start <= s@.len(),
            trim_front(s@) == trim_front(s@.skip(start as int)),
            forall|j: int| 0 <= j < start ==> is_ascii_ws(#[trigger] s@[j]),
        decreases s@.len() - start,
    {
        proof {
            assert(s@.skip(start as int).drop_first() =~= s@.skip(start as int + 1));
        }
        start = start + 1;
    }
    proof {
        let rest = s@.skip(start as int);
        if rest.len() > 0 {
            assert(rest[0] == s@[start as int]);
            assert(!is_ascii_ws(rest[0]));
        }
        assert(trim_front(rest) == rest);
    }
    let mut end: usize = s.len();
    while end > start && is_ws_byte(s[end - 1])
        invariant
            start <= end <= s@.len(),
            trim_back(s@.skip(start as int)) == trim_back(
                s@.subrange(start as int, end as int),
            ),
        decreases end,
    {
        proof {
            let cur = s@.subrange(start as int, end as int);
            assert(cur.last() == s@[end - 1]);
            assert(cur.drop_last() =~= s@.subrange(start as int, end as int - 1));
        }
        end = end - 1;
    }
    proof {
        let cur = s@.subrange(start as int, end as int);
        if cur.len() > 0 {
            assert(cur.last() == s@[end - 1]);
            assert(!is_ascii_ws(cur.last()));
        }
        assert(trim_back(cur) == cur);
    }
    let mut out: Vec<u8> = Vec::new();
    let mut i: usize = start;
    while i < end
        invariant
            start <= i <= end <= s@.len(),
            out@.len() == i - start,
            forall|j: int|
                0 <= j < out@.len() ==> out@[j] == ascii_lower(
                    s@.subrange(start as int, end as int),
                )[j],
        decreases end - i,
    {
        let c = s[i];
        if 0x41 <= c && c <= 0x5A {
            out.push(c + 0x20);
        } else {
            out.push(c);
        }
        i = i + 1;
    }
    proof {
        assert(out@ =~= ascii_lower(s@.subrange(start as int, end as int)));
        assert(out@ =~= normalize_category(s@));
    }
    out
}

/// Accepts a diesel parameter category name, ignoring case and surrounding
/// ASCII whitespace, and returns the canonical name.
pub fn validate_diesel_category(category: &str) -> (r: ValidationResult<String>)
    ensures
        (r matches Ok(s) ==> exists|i: int|
            0 <= i < 8 && normalize_category(category.spec_bytes()) == category_bytes_view(i)
                && s@ == category_name_view(i)),
        (r is Err ==> forall|i: int|
            0 <= i < 8 ==> normalize_category(category.spec_bytes()) != category_bytes_view(i)),
{
    let norm = normalize_exec(category.as_bytes());
    let mut i: usize = 0;
    while i < 8
        invariant
            0 <= i <= 8,
            norm@ == normalize_category(category.spec_bytes()),
            forall|j: int| 0 <= j < i ==> norm@ != category_bytes_view(j),
        decreases 8 - i,
    {
        let cand = category_bytes(i);
        if bytes_eq(norm.as_slice(), cand.as_slice()) {
            return Ok(category_name(i).to_owned());
        }
        i = i + 1;
    }
    Err(ValidationError::new("category", "not a known diesel category"))
}

} // verus!
