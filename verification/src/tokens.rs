//! Byte constants of the wire format and of the route table, each as a
//! spec sequence with an executable twin that is proved to produce it.
use vstd::prelude::*;

verus! {

/// Carriage return.
pub open spec fn spec_cr() -> u8 {
    13u8
}

/// Line feed.
pub open spec fn spec_lf() -> u8 {
    10u8
}

/// The bytes of `"Content-Length"`.
pub open spec fn spec_content_length_key() -> Seq<u8> {
    seq![
        'C' as u8, 'o' as u8, 'n' as u8, 't' as u8, 'e' as u8, 'n' as u8, 't' as u8, '-' as u8,
        'L' as u8, 'e' as u8, 'n' as u8, 'g' as u8, 't' as u8, 'h' as u8,
    ]
}

/// The bytes of `"Content-Length"`.
pub fn content_length_key() -> (r: Vec<u8>)
    ensures
        r@ == spec_content_length_key(),
{
    let r: Vec<u8> = vec![
        'C' as u8, 'o' as u8, 'n' as u8, 't' as u8, 'e' as u8, 'n' as u8, 't' as u8, '-' as u8,
        'L' as u8, 'e' as u8, 'n' as u8, 'g' as u8, 't' as u8, 'h' as u8,
    ];
    assert(r@ =~= spec_content_length_key());
    r
}

/// The bytes of `"Content-Type"`.
pub open spec fn spec_content_type_key() -> Seq<u8> {
    seq![
        'C' as u8, 'o' as u8, 'n' as u8, 't' as u8, 'e' as u8, 'n' as u8, 't' as u8, '-' as u8,
        'T' as u8, 'y' as u8, 'p' as u8, 'e' as u8,
    ]
}

/// The bytes of `"Content-Type"`.
pub fn content_type_key() -> (r: Vec<u8>)
    ensures
        r@ == spec_content_type_key(),
{
    let r: Vec<u8> = vec![
        'C' as u8, 'o' as u8, 'n' as u8, 't' as u8, 'e' as u8, 'n' as u8, 't' as u8, '-' as u8,
        'T' as u8, 'y' as u8, 'p' as u8, 'e' as u8,
    ];
    assert(r@ =~= spec_content_type_key());
    r
}

/// The bytes of `"User-Agent"`.
pub open spec fn spec_user_agent_key() -> Seq<u8> {
    seq![
        'U' as u8, 's' as u8, 'e' as u8, 'r' as u8, '-' as u8, 'A' as u8, 'g' as u8, 'e' as u8,
        'n' as u8, 't' as u8,
    ]
}

/// The bytes of `"User-Agent"`.
pub fn user_agent_key() -> (r: Vec<u8>)
    ensures
        r@ == spec_user_agent_key(),
{
    let r: Vec<u8> = vec![
        'U' as u8, 's' as u8, 'e' as u8, 'r' as u8, '-' as u8, 'A' as u8, 'g' as u8, 'e' as u8,
        'n' as u8, 't' as u8,
    ];
    assert(r@ =~= spec_user_agent_key());
    r
}

/// The bytes of `"--directory"`.
pub open spec fn spec_dir_flag() -> Seq<u8> {
    seq![
        '-' as u8, '-' as u8, 'd' as u8, 'i' as u8, 'r' as u8, 'e' as u8, 'c' as u8, 't' as u8,
        'o' as u8, 'r' as u8, 'y' as u8,
    ]
}

/// The bytes of `"--directory"`.
pub fn dir_flag() -> (r: Vec<u8>)
    ensures
        r@ == spec_dir_flag(),
{
    let r: Vec<u8> = vec![
        '-' as u8, '-' as u8, 'd' as u8, 'i' as u8, 'r' as u8, 'e' as u8, 'c' as u8, 't' as u8,
        'o' as u8, 'r' as u8, 'y' as u8,
    ];
    assert(r@ =~= spec_dir_flag());
    r
}

/// The bytes of `"/"`.
pub open spec fn spec_root_pattern() -> Seq<u8> {
    seq!['/' as u8]
}

/// The bytes of `"/"`.
pub fn root_pattern() -> (r: Vec<u8>)
    ensures
        r@ == spec_root_pattern(),
{
    let r: Vec<u8> = vec!['/' as u8];
    assert(r@ =~= spec_root_pattern());
    r
}

/// The bytes of `"/echo/"`.
pub open spec fn spec_echo_pattern() -> Seq<u8> {
    seq!['/' as u8, 'e' as u8, 'c' as u8, 'h' as u8, 'o' as u8, '/' as u8]
}

/// The bytes of `"/echo/"`.
pub fn echo_pattern() -> (r: Vec<u8>)
    ensures
        r@ == spec_echo_pattern(),
{
    let r: Vec<u8> = vec!['/' as u8, 'e' as u8, 'c' as u8, 'h' as u8, 'o' as u8, '/' as u8];
    assert(r@ =~= spec_echo_pattern());
    r
}

/// The bytes of `"/user-agent"`.
pub open spec fn spec_user_agent_pattern() -> Seq<u8> {
    seq![
        '/' as u8, 'u' as u8, 's' as u8, 'e' as u8, 'r' as u8, '-' as u8, 'a' as u8, 'g' as u8,
        'e' as u8, 'n' as u8, 't' as u8,
    ]
}

/// The bytes of `"/user-agent"`.
pub fn user_agent_pattern() -> (r: Vec<u8>)
    ensures
        r@ == spec_user_agent_pattern(),
{
    let r: Vec<u8> = vec![
        '/' as u8, 'u' as u8, 's' as u8, 'e' as u8, 'r' as u8, '-' as u8, 'a' as u8, 'g' as u8,
        'e' as u8, 'n' as u8, 't' as u8,
    ];
    assert(r@ =~= spec_user_agent_pattern());
    r
}

/// The bytes of `"/files/"`.
pub open spec fn spec_files_pattern() -> Seq<u8> {
    seq!['/' as u8, 'f' as u8, 'i' as u8, 'l' as u8, 'e' as u8, 's' as u8, '/' as u8]
}

/// The bytes of `"/files/"`.
pub fn files_pattern() -> (r: Vec<u8>)
    ensures
        r@ == spec_files_pattern(),
{
    let r: Vec<u8> = vec!['/' as u8, 'f' as u8, 'i' as u8, 'l' as u8, 'e' as u8, 's' as u8,
        '/' as u8];
    assert(r@ =~= spec_files_pattern());
    r
}

/// The bytes of `"GET"`.
pub open spec fn spec_get_token() -> Seq<u8> {
    seq!['G' as u8, 'E' as u8, 'T' as u8]
}

/// The bytes of `"GET"`.
pub fn get_token() -> (r: Vec<u8>)
    ensures
        r@ == spec_get_token(),
{
    let r: Vec<u8> = vec!['G' as u8, 'E' as u8, 'T' as u8];
    assert(r@ =~= spec_get_token());
    r
}

/// The bytes of `"POST"`.
pub open spec fn spec_post_token() -> Seq<u8> {
    seq!['P' as u8, 'O' as u8, 'S' as u8, 'T' as u8]
}

/// The bytes of `"POST"`.
pub fn post_token() -> (r: Vec<u8>)
    ensures
        r@ == spec_post_token(),
{
    let r: Vec<u8> = vec!['P' as u8, 'O' as u8, 'S' as u8, 'T' as u8];
    assert(r@ =~= spec_post_token());
    r
}

/// The bytes of `"PUT"`.
pub open spec fn spec_put_token() -> Seq<u8> {
    seq!['P' as u8, 'U' as u8, 'T' as u8]
}

/// The bytes of `"PUT"`.
pub fn put_token() -> (r: Vec<u8>)
    ensures
        r@ == spec_put_token(),
{
    let r: Vec<u8> = vec!['P' as u8, 'U' as u8, 'T' as u8];
    assert(r@ =~= spec_put_token());
    r
}

/// The bytes of `"DELETE"`.
pub open spec fn spec_delete_token() -> Seq<u8> {
    seq!['D' as u8, 'E' as u8, 'L' as u8, 'E' as u8, 'T' as u8, 'E' as u8]
}

/// The bytes of `"DELETE"`.
pub fn delete_token() -> (r: Vec<u8>)
    ensures
        r@ == spec_delete_token(),
{
    let r: Vec<u8> = vec!['D' as u8, 'E' as u8, 'L' as u8, 'E' as u8, 'T' as u8, 'E' as u8];
    assert(r@ =~= spec_delete_token());
    r
}

/// The bytes of `"HTTP/1.1 "`, the fixed prefix of every response status line.
pub open spec fn spec_version_prefix() -> Seq<u8> {
    seq![
        'H' as u8, 'T' as u8, 'T' as u8, 'P' as u8, '/' as u8, '1' as u8, '.' as u8, '1' as u8,
        ' ' as u8,
    ]
}

/// The bytes of `"HTTP/1.1 "`.
pub fn version_prefix() -> (r: Vec<u8>)
    ensures
        r@ == spec_version_prefix(),
{
    let r: Vec<u8> = vec![
        'H' as u8, 'T' as u8, 'T' as u8, 'P' as u8, '/' as u8, '1' as u8, '.' as u8, '1' as u8,
        ' ' as u8,
    ];
    assert(r@ =~= spec_version_prefix());
    r
}

/// The bytes of `"OK"`.
pub open spec fn spec_reason_ok() -> Seq<u8> {
    seq!['O' as u8, 'K' as u8]
}

/// The bytes of `"OK"`.
pub fn reason_ok() -> (r: Vec<u8>)
    ensures
        r@ == spec_reason_ok(),
{
    let r: Vec<u8> = vec!['O' as u8, 'K' as u8];
    assert(r@ =~= spec_reason_ok());
    r
}

/// The bytes of `"Not Found"`.
pub open spec fn spec_reason_not_found() -> Seq<u8> {
    seq![
        'N' as u8, 'o' as u8, 't' as u8, ' ' as u8, 'F' as u8, 'o' as u8, 'u' as u8, 'n' as u8,
        'd' as u8,
    ]
}

/// The bytes of `"Not Found"`.
pub fn reason_not_found() -> (r: Vec<u8>)
    ensures
        r@ == spec_reason_not_found(),
{
    let r: Vec<u8> = vec![
        'N' as u8, 'o' as u8, 't' as u8, ' ' as u8, 'F' as u8, 'o' as u8, 'u' as u8, 'n' as u8,
        'd' as u8,
    ];
    assert(r@ =~= spec_reason_not_found());
    r
}

/// The bytes of `"Created"`.
pub open spec fn spec_reason_created() -> Seq<u8> {
    seq!['C' as u8, 'r' as u8, 'e' as u8, 'a' as u8, 't' as u8, 'e' as u8, 'd' as u8]
}

/// The bytes of `"Created"`.
pub fn reason_created() -> (r: Vec<u8>)
    ensures
        r@ == spec_reason_created(),
{
    let r: Vec<u8> = vec!['C' as u8, 'r' as u8, 'e' as u8, 'a' as u8, 't' as u8, 'e' as u8,
        'd' as u8];
    assert(r@ =~= spec_reason_created());
    r
}

/// The bytes of `"Internal Server Error"`.
pub open spec fn spec_reason_server_error() -> Seq<u8> {
    seq![
        'I' as u8, 'n' as u8, 't' as u8, 'e' as u8, 'r' as u8, 'n' as u8, 'a' as u8, 'l' as u8,
        ' ' as u8, 'S' as u8, 'e' as u8, 'r' as u8, 'v' as u8, 'e' as u8, 'r' as u8, ' ' as u8,
        'E' as u8, 'r' as u8, 'r' as u8, 'o' as u8, 'r' as u8,
    ]
}

/// The bytes of `"Internal Server Error"`.
pub fn reason_server_error() -> (r: Vec<u8>)
    ensures
        r@ == spec_reason_server_error(),
{
    let r: Vec<u8> = vec![
        'I' as u8, 'n' as u8, 't' as u8, 'e' as u8, 'r' as u8, 'n' as u8, 'a' as u8, 'l' as u8,
        ' ' as u8, 'S' as u8, 'e' as u8, 'r' as u8, 'v' as u8, 'e' as u8, 'r' as u8, ' ' as u8,
        'E' as u8, 'r' as u8, 'r' as u8, 'o' as u8, 'r' as u8,
    ];
    assert(r@ =~= spec_reason_server_error());
    r
}

/// The bytes of `"text/plain"`.
pub open spec fn spec_text_plain() -> Seq<u8> {
    seq![
        't' as u8, 'e' as u8, 'x' as u8, 't' as u8, '/' as u8, 'p' as u8, 'l' as u8, 'a' as u8,
        'i' as u8, 'n' as u8,
    ]
}

/// The bytes of `"text/plain"`.
pub fn text_plain() -> (r: Vec<u8>)
    ensures
        r@ == spec_text_plain(),
{
    let r: Vec<u8> = vec![
        't' as u8, 'e' as u8, 'x' as u8, 't' as u8, '/' as u8, 'p' as u8, 'l' as u8, 'a' as u8,
        'i' as u8, 'n' as u8,
    ];
    assert(r@ =~= spec_text_plain());
    r
}

/// The bytes of `"application/octet-stream"`.
pub open spec fn spec_octet_stream() -> Seq<u8> {
    seq![
        'a' as u8, 'p' as u8, 'p' as u8, 'l' as u8, 'i' as u8, 'c' as u8, 'a' as u8, 't' as u8,
        'i' as u8, 'o' as u8, 'n' as u8, '/' as u8, 'o' as u8, 'c' as u8, 't' as u8, 'e' as u8,
        't' as u8, '-' as u8, 's' as u8, 't' as u8, 'r' as u8, 'e' as u8, 'a' as u8, 'm' as u8,
    ]
}

/// The bytes of `"application/octet-stream"`.
pub fn octet_stream() -> (r: Vec<u8>)
    ensures
        r@ == spec_octet_stream(),
{
    let r: Vec<u8> = vec![
        'a' as u8, 'p' as u8, 'p' as u8, 'l' as u8, 'i' as u8, 'c' as u8, 'a' as u8, 't' as u8,
        'i' as u8, 'o' as u8, 'n' as u8, '/' as u8, 'o' as u8, 'c' as u8, 't' as u8, 'e' as u8,
        't' as u8, '-' as u8, 's' as u8, 't' as u8, 'r' as u8, 'e' as u8, 'a' as u8, 'm' as u8,
    ];
    assert(r@ =~= spec_octet_stream());
    r
}

} // verus!
