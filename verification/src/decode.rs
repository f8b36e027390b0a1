//! Executable decoder, proved equivalent to the spec decoding in `codec`.

use vstd::prelude::*;
use vstd::slice::slice_subrange;
use vstd::bytes::{u64_from_le_bytes, u128_from_le_bytes};
use vstd::utf8::{valid_utf8, decode_utf8};
use crate::codec::{dec_byte_s, dec_bool_s, dec_u64_s, dec_u128_s, dec_usize_s, dec_str_s,
    dec_opt_str_s, dec_opt_usize_s, dec_str_items_s, dec_str_list_s, dec_range_s, dec_change_s,
    dec_change_items_s, dec_change_list_s, dec_result_s, dec_result_items_s, dec_result_list_s,
    dec_options_s, dec_fct_s, dec_req_s, dec_resp_s, dec_notif_s, dec_payload_s, dec_msg_s};
use crate::wire::{RequestId, SearchOptions, SearchResult, TextRange, TextChange, FileChangeType,
    CoreRequest, CoreResponse, Notification, IpcPayload, IpcMessage};

verus! {

/// Relies on `core::str::from_utf8`: it succeeds exactly on valid UTF-8
/// input and yields the string those bytes encode.
#[verifier::external_body]
fn utf8_to_string(v: &[u8]) -> (r: Option<String>)
    ensures
        r is Some <==> valid_utf8(v@),
        r is Some ==> r.unwrap()@ == decode_utf8(v@),
{
    match core::str::from_utf8(v) {
        Ok(s) => Some(s.to_owned()),
        Err(_) => None,
    }
}

fn get_byte(buf: &[u8], pos: &mut usize) -> (r: Option<u8>)
    ensures
        match dec_byte_s(buf@, *old(pos) as int) {
            Some(vp) => r == Some(vp.0) && *final(pos) as int == vp.1,
            None => r is None,
        },
{
    if *pos < buf.len() {
        let x = buf[*pos];
        *pos = *pos + 1;
        Some(x)
    } else {
        None
    }
}

fn get_bool(buf: &[u8], pos: &mut usize) -> (r: Option<bool>)
    ensures
        match dec_bool_s(buf@, *old(pos) as int) {
            Some(vp) => r == Some(vp.0) && *final(pos) as int == vp.1,
            None => r is None,
        },
{
    match get_byte(buf, pos) {
        Some(x) => {
            if x == 0 {
                Some(false)
            } else if x == 1 {
                Some(true)
            } else {
                None
            }
        },
        None => None,
    }
}

fn get_u64(buf: &[u8], pos: &mut usize) -> (r: Option<u64>)
    ensures
        match dec_u64_s(buf@, *old(pos) as int) {
            Some(vp) => r == Some(vp.0) && *final(pos) as int == vp.1,
            None => r is None,
        },
{
    if *pos <= buf.len() && buf.len() - *pos >= 8 {
        let s = slice_subrange(buf, *pos, *pos + 8);
        let x = u64_from_le_bytes(s);
        *pos = *pos + 8;
        Some(x)
    } else {
        None
    }
}

fn get_u128(buf: &[u8], pos: &mut usize) -> (r: Option<u128>)
    ensures
        match dec_u128_s(buf@, *old(pos) as int) {
            Some(vp) => r == Some(vp.0) && *final(pos) as int == vp.1,
            None => r is None,
        },
{
    if *pos <= buf.len() && buf.len() - *pos >= 16 {
        let s = slice_subrange(buf, *pos, *pos + 16);
        let x = u128_from_le_bytes(s);
        *pos = *pos + 16;
        Some(x)
    } else {
        None
    }
}

fn get_usize(buf: &[u8], pos: &mut usize) -> (r: Option<usize>)
    ensures
        match dec_usize_s(buf@, *old(pos) as int) {
            Some(vp) => r == Some(vp.0) && *final(pos) as int == vp.1,
            None => r is None,
        },
{
    match get_u64(buf, pos) {
        Some(x) => {
            if x <= usize::MAX as u64 {
                Some(x as usize)
            } else {
                None
            }
        },
        None => None,
    }
}

fn get_string(buf: &[u8], pos: &mut usize) -> (r: Option<String>)
    ensures
        match dec_str_s(buf@, *old(pos) as int) {
            Some(vp) => r is Some && r.unwrap()@ == vp.0 && *final(pos) as int == vp.1,
            None => r is None,
        },
{
    match get_u64(buf, pos) {
        Some(n) => {
            if *pos <= buf.len() && n <= (buf.len() - *pos) as u64 {
                let end = *pos + n as usize;
                let s = slice_subrange(buf, *pos, end);
                match utf8_to_string(s) {
                    Some(st) => {
                        *pos = end;
                        Some(st)
                    },
                    None => None,
                }
            } else {
                None
            }
        },
        None => None,
    }
}

fn get_opt_string(buf: &[u8], pos: &mut usize) -> (r: Option<Option<String>>)
    ensures
        match dec_opt_str_s(buf@, *old(pos) as int) {
            Some(vp) => r is Some && r.unwrap().deep_view() == vp.0 && *final(pos) as int == vp.1,
            None => r is None,
        },
{
    match get_byte(buf, pos) {
        Some(tag) => {
            if tag == 0 {
                Some(None)
            } else if tag == 1 {
                match get_string(buf, pos) {
                    Some(s) => Some(Some(s)),
                    None => None,
                }
            } else {
                None
            }
        },
        None => None,
    }
}

fn get_opt_usize(buf: &[u8], pos: &mut usize) -> (r: Option<Option<usize>>)
    ensures
        match dec_opt_usize_s(buf@, *old(pos) as int) {
            Some(vp) => r is Some && r.unwrap().deep_view() == vp.0 && *final(pos) as int == vp.1,
            None => r is None,
        },
{
    match get_byte(buf, pos) {
        Some(tag) => {
            if tag == 0 {
                Some(None)
            } else if tag == 1 {
                match get_usize(buf, pos) {
                    Some(x) => Some(Some(x)),
                    None => None,
                }
            } else {
                None
            }
        },
        None => None,
    }
}

#[verifier::loop_isolation(false)]
fn get_string_vec(buf: &[u8], pos: &mut usize) -> (r: Option<Vec<String>>)
    ensures
        match dec_str_list_s(buf@, *old(pos) as int) {
            Some(vp) => r is Some && r.unwrap().deep_view() == vp.0 && *final(pos) as int == vp.1,
            None => r is None,
        },
{
    match get_u64(buf, pos) {
        Some(n64) => {
            if n64 > usize::MAX as u64 {
                return None;
            }
            let n = n64 as usize;
            let ghost pstart = *pos as int;
            let mut acc: Vec<String> = Vec::new();
            let mut i: usize = 0;
            while i < n
                invariant
                    i <= n,
                    acc.deep_view().len() == i,
                    match dec_str_items_s(buf@, *pos as int, (n - i) as nat) {
                        Some(vp) => dec_str_items_s(buf@, pstart, n as nat) == Some(
                            (acc.deep_view() + vp.0, vp.1),
                        ),
                        None => dec_str_items_s(buf@, pstart, n as nat) is None,
                    },
                decreases n - i,
            {
                let ghost accv = acc.deep_view();
                match get_string(buf, pos) {
                    Some(s) => {
                        let ghost sv = s@;
                        acc.push(s);
                        i = i + 1;
                        proof {
                            assert(acc.deep_view() =~= accv + seq![sv]);
                            let o = dec_str_items_s(buf@, *pos as int, (n - i) as nat);
                            if o is Some {
                                assert(accv + (seq![sv] + o.unwrap().0) =~= (accv + seq![sv])
                                    + o.unwrap().0);
                            }
                        }
                    },
                    None => {
                        return None;
                    },
                }
            }
            proof {
                assert(acc.deep_view() + Seq::<Seq<char>>::empty() =~= acc.deep_view());
            }
            Some(acc)
        },
        None => None,
    }
}

fn get_range(buf: &[u8], pos: &mut usize) -> (r: Option<TextRange>)
    ensures
        match dec_range_s(buf@, *old(pos) as int) {
            Some(vp) => r is Some && r.unwrap().deep_view() == vp.0 && *final(pos) as int == vp.1,
            None => r is None,
        },
{
    let start_line = match get_usize(buf, pos) {
        Some(x) => x,
        None => {
            return None;
        },
    };
    let start_column = match get_usize(buf, pos) {
        Some(x) => x,
        None => {
            return None;
        },
    };
    let end_line = match get_usize(buf, pos) {
        Some(x) => x,
        None => {
            return None;
        },
    };
    let end_column = match get_usize(buf, pos) {
        Some(x) => x,
        None => {
            return None;
        },
    };
    Some(TextRange { start_line, start_column, end_line, end_column })
}

fn get_change(buf: &[u8], pos: &mut usize) -> (r: Option<TextChange>)
    ensures
        match dec_change_s(buf@, *old(pos) as int) {
            Some(vp) => r is Some && r.unwrap().deep_view() == vp.0 && *final(pos) as int == vp.1,
            None => r is None,
        },
{
    let range = match get_range(buf, pos) {
        Some(x) => x,
        None => {
            return None;
        },
    };
    let new_text = match get_string(buf, pos) {
        Some(x) => x,
        None => {
            return None;
        },
    };
    let old_text = match get_string(buf, pos) {
        Some(x) => x,
        None => {
            return None;
        },
    };
    Some(TextChange { range, new_text, old_text })
}

#[verifier::loop_isolation(false)]
fn get_change_vec(buf: &[u8], pos: &mut usize) -> (r: Option<Vec<TextChange>>)
    ensures
        match dec_change_list_s(buf@, *old(pos) as int) {
            Some(vp) => r is Some && r.unwrap().deep_view() == vp.0 && *final(pos) as int == vp.1,
            None => r is None,
        },
{
    match get_u64(buf, pos) {
        Some(n64) => {
            if n64 > usize::MAX as u64 {
                return None;
            }
            let n = n64 as usize;
            let ghost pstart = *pos as int;
            let mut acc: Vec<TextChange> = Vec::new();
            let mut i: usize = 0;
            while i < n
                invariant
                    i <= n,
                    acc.deep_view().len() == i,
                    match dec_change_items_s(buf@, *pos as int, (n - i) as nat) {
                        Some(vp) => dec_change_items_s(buf@, pstart, n as nat) == Some(
                            (acc.deep_view() + vp.0, vp.1),
                        ),
                        None => dec_change_items_s(buf@, pstart, n as nat) is None,
                    },
                decreases n - i,
            {
                let ghost accv = acc.deep_view();
                match get_change(buf, pos) {
                    Some(c) => {
                        let ghost cv = c.deep_view();
                        acc.push(c);
                        i = i + 1;
                        proof {
                            assert(acc.deep_view() =~= accv + seq![cv]);
                            let o = dec_change_items_s(buf@, *pos as int, (n - i) as nat);
                            if o is Some {
                                assert(accv + (seq![cv] + o.unwrap().0) =~= (accv + seq![cv])
                                    + o.unwrap().0);
                            }
                        }
                    },
                    None => {
                        return None;
                    },
                }
            }
            proof {
                assert(acc.deep_view() + Seq::<crate::wire::TextChangeView>::empty()
                    =~= acc.deep_view());
            }
            Some(acc)
        },
        None => None,
    }
}

fn get_result(buf: &[u8], pos: &mut usize) -> (r: Option<SearchResult>)
    ensures
        match dec_result_s(buf@, *old(pos) as int) {
            Some(vp) => r is Some && r.unwrap().deep_view() == vp.0 && *final(pos) as int == vp.1,
            None => r is None,
        },
{
    let path = match get_string(buf, pos) {
        Some(x) => x,
        None => {
            return None;
        },
    };
    let line_number = match get_usize(buf, pos) {
        Some(x) => x,
        None => {
            return None;
        },
    };
    let column = match get_usize(buf, pos) {
        Some(x) => x,
        None => {
            return None;
        },
    };
    let line_text = match get_string(buf, pos) {
        Some(x) => x,
        None => {
            return None;
        },
    };
    let match_text = match get_string(buf, pos) {
        Some(x) => x,
        None => {
            return None;
        },
    };
    Some(SearchResult { path, line_number, column, line_text, match_text })
}

#[verifier::loop_isolation(false)]
fn get_result_vec(buf: &[u8], pos: &mut usize) -> (r: Option<Vec<SearchResult>>)
    ensures
        match dec_result_list_s(buf@, *old(pos) as int) {
            Some(vp) => r is Some && r.unwrap().deep_view() == vp.0 && *final(pos) as int == vp.1,
            None => r is None,
        },
{
    match get_u64(buf, pos) {
        Some(n64) => {
            if n64 > usize::MAX as u64 {
                return None;
            }
            let n = n64 as usize;
            let ghost pstart = *pos as int;
            let mut acc: Vec<SearchResult> = Vec::new();
            let mut i: usize = 0;
            while i < n
                invariant
                    i <= n,
                    acc.deep_view().len() == i,
                    match dec_result_items_s(buf@, *pos as int, (n - i) as nat) {
                        Some(vp) => dec_result_items_s(buf@, pstart, n as nat) == Some(
                            (acc.deep_view() + vp.0, vp.1),
                        ),
                        None => dec_result_items_s(buf@, pstart, n as nat) is None,
                    },
                decreases n - i,
            {
                let ghost accv = acc.deep_view();
                match get_result(buf, pos) {
                    Some(c) => {
                        let ghost cv = c.deep_view();
                        acc.push(c);
                        i = i + 1;
                        proof {
                            assert(acc.deep_view() =~= accv + seq![cv]);
                            let o = dec_result_items_s(buf@, *pos as int, (n - i) as nat);
                            if o is Some {
                                assert(accv + (seq![cv] + o.unwrap().0) =~= (accv + seq![cv])
                                    + o.unwrap().0);
                            }
                        }
                    },
                    None => {
                        return None;
                    },
                }
            }
            proof {
                assert(acc.deep_view() + Seq::<crate::wire::SearchResultView>::empty()
                    =~= acc.deep_view());
            }
            Some(acc)
        },
        None => None,
    }
}

fn get_options(buf: &[u8], pos: &mut usize) -> (r: Option<SearchOptions>)
    ensures
        match dec_options_s(buf@, *old(pos) as int) {
            Some(vp) => r is Some && r.unwrap().deep_view() == vp.0 && *final(pos) as int == vp.1,
            None => r is None,
        },
{
    let case_sensitive = match get_bool(buf, pos) {
        Some(x) => x,
        None => {
            return None;
        },
    };
    let whole_word = match get_bool(buf, pos) {
        Some(x) => x,
        None => {
            return None;
        },
    };
    let regex = match get_bool(buf, pos) {
        Some(x) => x,
        None => {
            return None;
        },
    };
    let include_pattern = match get_opt_string(buf, pos) {
        Some(x) => x,
        None => {
            return None;
        },
    };
    let exclude_pattern = match get_opt_string(buf, pos) {
        Some(x) => x,
        None => {
            return None;
        },
    };
    let max_results = match get_opt_usize(buf, pos) {
        Some(x) => x,
        None => {
            return None;
        },
    };
    Some(
        SearchOptions {
            case_sensitive,
            whole_word,
            regex,
            include_pattern,
            exclude_pattern,
            max_results,
        },
    )
}

fn get_fct(buf: &[u8], pos: &mut usize) -> (r: Option<FileChangeType>)
    ensures
        match dec_fct_s(buf@, *old(pos) as int) {
            Some(vp) => r is Some && r.unwrap().deep_view() == vp.0 && *final(pos) as int == vp.1,
            None => r is None,
        },
{
    match get_byte(buf, pos) {
        Some(tag) => {
            if tag == 0 {
                Some(FileChangeType::Created)
            } else if tag == 1 {
                Some(FileChangeType::Modified)
            } else if tag == 2 {
                Some(FileChangeType::Deleted)
            } else if tag == 3 {
                let old_path = match get_string(buf, pos) {
                    Some(x) => x,
                    None => {
                        return None;
                    },
                };
                let new_path = match get_string(buf, pos) {
                    Some(x) => x,
                    None => {
                        return None;
                    },
                };
                Some(FileChangeType::Renamed { old_path, new_path })
            } else {
                None
            }
        },
        None => None,
    }
}

fn get_req(buf: &[u8], pos: &mut usize) -> (r: Option<CoreRequest>)
    ensures
        match dec_req_s(buf@, *old(pos) as int) {
            Some(vp) => r is Some && r.unwrap().deep_view() == vp.0 && *final(pos) as int == vp.1,
            None => r is None,
        },
{
    match get_byte(buf, pos) {
        Some(tag) => {
            if tag == 0 {
                Some(CoreRequest::Ping)
            } else if tag == 1 {
                match get_u64(buf, pos) {
                    Some(millis) => Some(CoreRequest::Sleep { millis }),
                    None => None,
                }
            } else if tag == 2 {
                match get_string(buf, pos) {
                    Some(path) => Some(CoreRequest::OpenBuffer { path }),
                    None => None,
                }
            } else if tag == 3 {
                let buffer_id = match get_string(buf, pos) {
                    Some(x) => x,
                    None => {
                        return None;
                    },
                };
                let content = match get_string(buf, pos) {
                    Some(x) => x,
                    None => {
                        return None;
                    },
                };
                Some(CoreRequest::SaveBuffer { buffer_id, content })
            } else if tag == 4 {
                match get_string(buf, pos) {
                    Some(buffer_id) => Some(CoreRequest::CloseBuffer { buffer_id }),
                    None => None,
                }
            } else if tag == 5 {
                let query = match get_string(buf, pos) {
                    Some(x) => x,
                    None => {
                        return None;
                    },
                };
                let options = match get_options(buf, pos) {
                    Some(x) => x,
                    None => {
                        return None;
                    },
                };
                Some(CoreRequest::Search { query, options })
            } else if tag == 6 {
                let server = match get_string(buf, pos) {
                    Some(x) => x,
                    None => {
                        return None;
                    },
                };
                let method = match get_string(buf, pos) {
                    Some(x) => x,
                    None => {
                        return None;
                    },
                };
                let params = match get_string(buf, pos) {
                    Some(x) => x,
                    None => {
                        return None;
                    },
                };
                Some(CoreRequest::LspRequest { server, method, params })
            } else if tag == 7 {
                match get_string(buf, pos) {
                    Some(root_path) => Some(CoreRequest::GetProjectFiles { root_path }),
                    None => None,
                }
            } else if tag == 8 {
                Some(CoreRequest::GetStats)
            } else {
                None
            }
        },
        None => None,
    }
}

fn get_resp(buf: &[u8], pos: &mut usize) -> (r: Option<CoreResponse>)
    ensures
        match dec_resp_s(buf@, *old(pos) as int) {
            Some(vp) => r is Some && r.unwrap().deep_view() == vp.0 && *final(pos) as int == vp.1,
            None => r is None,
        },
{
    match get_byte(buf, pos) {
        Some(tag) => {
            if tag == 0 {
                Some(CoreResponse::Pong)
            } else if tag == 1 {
                let buffer_id = match get_string(buf, pos) {
                    Some(x) => x,
                    None => {
                        return None;
                    },
                };
                let content = match get_string(buf, pos) {
                    Some(x) => x,
                    None => {
                        return None;
                    },
                };
                Some(CoreResponse::BufferOpened { buffer_id, content })
            } else if tag == 2 {
                match get_string(buf, pos) {
                    Some(buffer_id) => Some(CoreResponse::BufferSaved { buffer_id }),
                    None => None,
                }
            } else if tag == 3 {
                match get_string(buf, pos) {
                    Some(buffer_id) => Some(CoreResponse::BufferClosed { buffer_id }),
                    None => None,
                }
            } else if tag == 4 {
                match get_result_vec(buf, pos) {
                    Some(results) => Some(CoreResponse::SearchResults { results }),
                    None => None,
                }
            } else if tag == 5 {
                match get_string(buf, pos) {
                    Some(result) => Some(CoreResponse::LspResponse { result }),
                    None => None,
                }
            } else if tag == 6 {
                match get_string_vec(buf, pos) {
                    Some(files) => Some(CoreResponse::ProjectFiles { files }),
                    None => None,
                }
            } else if tag == 7 {
                let cancels = match get_u64(buf, pos) {
                    Some(x) => x,
                    None => {
                        return None;
                    },
                };
                let deadlines = match get_u64(buf, pos) {
                    Some(x) => x,
                    None => {
                        return None;
                    },
                };
                let backpressure = match get_u64(buf, pos) {
                    Some(x) => x,
                    None => {
                        return None;
                    },
                };
                Some(CoreResponse::Stats { cancels, deadlines, backpressure })
            } else if tag == 8 {
                Some(CoreResponse::Success)
            } else if tag == 9 {
                match get_string(buf, pos) {
                    Some(message) => Some(CoreResponse::Error { message }),
                    None => None,
                }
            } else {
                None
            }
        },
        None => None,
    }
}

fn get_notif(buf: &[u8], pos: &mut usize) -> (r: Option<Notification>)
    ensures
        match dec_notif_s(buf@, *old(pos) as int) {
            Some(vp) => r is Some && r.unwrap().deep_view() == vp.0 && *final(pos) as int == vp.1,
            None => r is None,
        },
{
    match get_byte(buf, pos) {
        Some(tag) => {
            if tag == 0 {
                let buffer_id = match get_string(buf, pos) {
                    Some(x) => x,
                    None => {
                        return None;
                    },
                };
                let changes = match get_change_vec(buf, pos) {
                    Some(x) => x,
                    None => {
                        return None;
                    },
                };
                Some(Notification::BufferChanged { buffer_id, changes })
            } else if tag == 1 {
                let uri = match get_string(buf, pos) {
                    Some(x) => x,
                    None => {
                        return None;
                    },
                };
                let diagnostics = match get_string_vec(buf, pos) {
                    Some(x) => x,
                    None => {
                        return None;
                    },
                };
                Some(Notification::DiagnosticsUpdate { uri, diagnostics })
            } else if tag == 2 {
                let path = match get_string(buf, pos) {
                    Some(x) => x,
                    None => {
                        return None;
                    },
                };
                let change_type = match get_fct(buf, pos) {
                    Some(x) => x,
                    None => {
                        return None;
                    },
                };
                Some(Notification::FileSystemChanged { path, change_type })
            } else {
                None
            }
        },
        None => None,
    }
}

fn get_payload(buf: &[u8], pos: &mut usize) -> (r: Option<IpcPayload>)
    ensures
        match dec_payload_s(buf@, *old(pos) as int) {
            Some(vp) => r is Some && r.unwrap().deep_view() == vp.0 && *final(pos) as int == vp.1,
            None => r is None,
        },
{
    match get_byte(buf, pos) {
        Some(tag) => {
            if tag == 0 {
                match get_req(buf, pos) {
                    Some(r0) => Some(IpcPayload::Request(r0)),
                    None => None,
                }
            } else if tag == 1 {
                match get_resp(buf, pos) {
                    Some(r0) => Some(IpcPayload::Response(r0)),
                    None => None,
                }
            } else if tag == 2 {
                match get_notif(buf, pos) {
                    Some(n0) => Some(IpcPayload::Notification(n0)),
                    None => None,
                }
            } else if tag == 3 {
                match get_u128(buf, pos) {
                    Some(id) => Some(IpcPayload::Cancel(RequestId(id))),
                    None => None,
                }
            } else {
                None
            }
        },
        None => None,
    }
}

fn get_msg(buf: &[u8], pos: &mut usize) -> (r: Option<IpcMessage>)
    ensures
        match dec_msg_s(buf@, *old(pos) as int) {
            Some(vp) => r is Some && r.unwrap().deep_view() == vp.0 && *final(pos) as int == vp.1,
            None => r is None,
        },
{
    let id = match get_u128(buf, pos) {
        Some(x) => x,
        None => {
            return None;
        },
    };
    let deadline_millis = match get_u64(buf, pos) {
        Some(x) => x,
        None => {
            return None;
        },
    };
    let payload = match get_payload(buf, pos) {
        Some(x) => x,
        None => {
            return None;
        },
    };
    Some(IpcMessage { id: RequestId(id), deadline_millis, payload })
}

/// Deserializes an envelope from the deterministic binary form. Succeeds
/// exactly when the whole buffer is one well-formed encoding.
pub fn decode_message(buf: &[u8]) -> (r: Option<IpcMessage>)
    ensures
        match dec_msg_s(buf@, 0) {
            Some(vp) => if vp.1 == buf@.len() {
                r is Some && r.unwrap().deep_view() == vp.0
            } else {
                r is None
            },
            None => r is None,
        },
{
    let mut pos: usize = 0;
    match get_msg(buf, &mut pos) {
        Some(m) => {
            if pos == buf.len() {
                Some(m)
            } else {
                None
            }
        },
        None => None,
    }
}

} // verus!
