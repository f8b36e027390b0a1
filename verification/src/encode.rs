//! Executable encoder, proved against the spec encoding in `codec`.

use vstd::prelude::*;
use vstd::bytes::{u64_to_le_bytes, u128_to_le_bytes};
use crate::codec::{enc_bool, enc_u64, enc_u128, enc_usize, enc_str, enc_opt_str, enc_opt_usize,
    enc_str_items, enc_str_list, enc_range, enc_change, enc_change_items, enc_change_list,
    enc_result, enc_result_items, enc_result_list, enc_options, enc_fct, enc_req, enc_resp,
    enc_notif, enc_payload, enc_msg, wf_str, wf_opt_str, wf_str_list, wf_change, wf_change_list,
    wf_result, wf_result_list, wf_options, wf_fct, wf_req, wf_resp, wf_notif, wf_payload, wf_msg,
    lemma_enc_str_items_snoc, lemma_enc_change_items_snoc, lemma_enc_result_items_snoc};
use crate::wire::{SearchOptions, SearchResult, TextRange, TextChange, FileChangeType,
    CoreRequest, CoreResponse, Notification, IpcPayload, IpcMessage};

verus! {

fn put_bool(out: &mut Vec<u8>, b: bool)
    ensures
        final(out)@ == old(out)@ + enc_bool(b),
{
    out.push(if b { 1u8 } else { 0u8 });
    proof {
        assert(out@ =~= old(out)@ + enc_bool(b));
    }
}

fn put_tag(out: &mut Vec<u8>, tag: u8)
    ensures
        final(out)@ == old(out)@ + seq![tag],
{
    out.push(tag);
    proof {
        assert(out@ =~= old(out)@ + seq![tag]);
    }
}

fn put_u64(out: &mut Vec<u8>, x: u64)
    ensures
        final(out)@ == old(out)@ + enc_u64(x),
{
    let mut bs = u64_to_le_bytes(x);
    out.append(&mut bs);
}

fn put_u128(out: &mut Vec<u8>, x: u128)
    ensures
        final(out)@ == old(out)@ + enc_u128(x),
{
    let mut bs = u128_to_le_bytes(x);
    out.append(&mut bs);
}

fn put_usize(out: &mut Vec<u8>, x: usize)
    ensures
        final(out)@ == old(out)@ + enc_usize(x),
{
    put_u64(out, x as u64);
}

fn put_str(out: &mut Vec<u8>, s: &str)
    ensures
        final(out)@ == old(out)@ + enc_str(s@),
        wf_str(s@),
{
    let ghost start = out@;
    let mut bs = s.as_bytes_vec();
    let n = bs.len();
    put_u64(out, n as u64);
    out.append(&mut bs);
    proof {
        assert(out@ =~= start + enc_str(s@));
    }
}

fn put_opt_str(out: &mut Vec<u8>, o: &Option<String>)
    ensures
        final(out)@ == old(out)@ + enc_opt_str(o.deep_view()),
        wf_opt_str(o.deep_view()),
{
    let ghost start = out@;
    match o {
        None => {
            put_tag(out, 0);
        },
        Some(s) => {
            put_tag(out, 1);
            put_str(out, s.as_str());
            proof {
                assert(out@ =~= start + enc_opt_str(o.deep_view()));
            }
        },
    }
}

fn put_opt_usize(out: &mut Vec<u8>, o: &Option<usize>)
    ensures
        final(out)@ == old(out)@ + enc_opt_usize(o.deep_view()),
{
    let ghost start = out@;
    match o {
        None => {
            put_tag(out, 0);
        },
        Some(x) => {
            put_tag(out, 1);
            put_usize(out, *x);
            proof {
                assert(out@ =~= start + enc_opt_usize(o.deep_view()));
            }
        },
    }
}

fn put_str_vec(out: &mut Vec<u8>, v: &Vec<String>)
    ensures
        final(out)@ == old(out)@ + enc_str_list(v.deep_view()),
        wf_str_list(v.deep_view()),
{
    let ghost start = out@;
    let n = v.len();
    put_u64(out, n as u64);
    let ghost base = out@;
    for i in 0..n
        invariant
            n == v@.len(),
            base == start + enc_u64(n as u64),
            out@ == base + enc_str_items(v.deep_view().take(i as int)),
            forall|j: int| 0 <= j < i ==> wf_str(#[trigger] v.deep_view()[j]),
    {
        put_str(out, v[i].as_str());
        proof {
            lemma_enc_str_items_snoc(v.deep_view().take(i as int), v.deep_view()[i as int]);
            assert(v.deep_view().take(i as int) + seq![v.deep_view()[i as int]] =~= v.deep_view()
                .take(i + 1 as int));
        }
    }
    proof {
        assert(v.deep_view().take(n as int) =~= v.deep_view());
        assert(out@ =~= start + enc_str_list(v.deep_view()));
    }
}

fn put_range(out: &mut Vec<u8>, r: &TextRange)
    ensures
        final(out)@ == old(out)@ + enc_range(r.deep_view()),
{
    let ghost start = out@;
    put_usize(out, r.start_line);
    put_usize(out, r.start_column);
    put_usize(out, r.end_line);
    put_usize(out, r.end_column);
    proof {
        assert(out@ =~= start + enc_range(r.deep_view()));
    }
}

fn put_change(out: &mut Vec<u8>, c: &TextChange)
    ensures
        final(out)@ == old(out)@ + enc_change(c.deep_view()),
        wf_change(c.deep_view()),
{
    let ghost start = out@;
    put_range(out, &c.range);
    put_str(out, c.new_text.as_str());
    put_str(out, c.old_text.as_str());
    proof {
        assert(out@ =~= start + enc_change(c.deep_view()));
    }
}

fn put_change_vec(out: &mut Vec<u8>, v: &Vec<TextChange>)
    ensures
        final(out)@ == old(out)@ + enc_change_list(v.deep_view()),
        wf_change_list(v.deep_view()),
{
    let ghost start = out@;
    let n = v.len();
    put_u64(out, n as u64);
    let ghost base = out@;
    for i in 0..n
        invariant
            n == v@.len(),
            base == start + enc_u64(n as u64),
            out@ == base + enc_change_items(v.deep_view().take(i as int)),
            forall|j: int| 0 <= j < i ==> wf_change(#[trigger] v.deep_view()[j]),
    {
        put_change(out, &v[i]);
        proof {
            lemma_enc_change_items_snoc(v.deep_view().take(i as int), v.deep_view()[i as int]);
            assert(v.deep_view().take(i as int) + seq![v.deep_view()[i as int]] =~= v.deep_view()
                .take(i + 1 as int));
        }
    }
    proof {
        assert(v.deep_view().take(n as int) =~= v.deep_view());
        assert(out@ =~= start + enc_change_list(v.deep_view()));
    }
}

fn put_result(out: &mut Vec<u8>, r: &SearchResult)
    ensures
        final(out)@ == old(out)@ + enc_result(r.deep_view()),
        wf_result(r.deep_view()),
{
    let ghost start = out@;
    put_str(out, r.path.as_str());
    put_usize(out, r.line_number);
    put_usize(out, r.column);
    put_str(out, r.line_text.as_str());
    put_str(out, r.match_text.as_str());
    proof {
        assert(out@ =~= start + enc_result(r.deep_view()));
    }
}

fn put_result_vec(out: &mut Vec<u8>, v: &Vec<SearchResult>)
    ensures
        final(out)@ == old(out)@ + enc_result_list(v.deep_view()),
        wf_result_list(v.deep_view()),
{
    let ghost start = out@;
    let n = v.len();
    put_u64(out, n as u64);
    let ghost base = out@;
    for i in 0..n
        invariant
            n == v@.len(),
            base == start + enc_u64(n as u64),
            out@ == base + enc_result_items(v.deep_view().take(i as int)),
            forall|j: int| 0 <= j < i ==> wf_result(#[trigger] v.deep_view()[j]),
    {
        put_result(out, &v[i]);
        proof {
            lemma_enc_result_items_snoc(v.deep_view().take(i as int), v.deep_view()[i as int]);
            assert(v.deep_view().take(i as int) + seq![v.deep_view()[i as int]] =~= v.deep_view()
                .take(i + 1 as int));
        }
    }
    proof {
        assert(v.deep_view().take(n as int) =~= v.deep_view());
        assert(out@ =~= start + enc_result_list(v.deep_view()));
    }
}

#[verifier::rlimit(50)]
fn put_options(out: &mut Vec<u8>, o: &SearchOptions)
    ensures
        final(out)@ == old(out)@ + enc_options(o.deep_view()),
        wf_options(o.deep_view()),
{
    let ghost start = out@;
    put_bool(out, o.case_sensitive);
    put_bool(out, o.whole_word);
    put_bool(out, o.regex);
    put_opt_str(out, &o.include_pattern);
    put_opt_str(out, &o.exclude_pattern);
    put_opt_usize(out, &o.max_results);
    proof {
        assert(out@ =~= start + enc_options(o.deep_view()));
    }
}

fn put_fct(out: &mut Vec<u8>, f: &FileChangeType)
    ensures
        final(out)@ == old(out)@ + enc_fct(f.deep_view()),
        wf_fct(f.deep_view()),
{
    let ghost start = out@;
    match f {
        FileChangeType::Created => {
            put_tag(out, 0);
        },
        FileChangeType::Modified => {
            put_tag(out, 1);
        },
        FileChangeType::Deleted => {
            put_tag(out, 2);
        },
        FileChangeType::Renamed { old_path, new_path } => {
            put_tag(out, 3);
            put_str(out, old_path.as_str());
            put_str(out, new_path.as_str());
            proof {
                assert(out@ =~= start + enc_fct(f.deep_view()));
            }
        },
    }
}

fn put_req(out: &mut Vec<u8>, r: &CoreRequest)
    ensures
        final(out)@ == old(out)@ + enc_req(r.deep_view()),
        wf_req(r.deep_view()),
{
    let ghost start = out@;
    match r {
        CoreRequest::Ping => {
            put_tag(out, 0);
        },
        CoreRequest::Sleep { millis } => {
            put_tag(out, 1);
            put_u64(out, *millis);
            proof {
                assert(out@ =~= start + enc_req(r.deep_view()));
            }
        },
        CoreRequest::OpenBuffer { path } => {
            put_tag(out, 2);
            put_str(out, path.as_str());
            proof {
                assert(out@ =~= start + enc_req(r.deep_view()));
            }
        },
        CoreRequest::SaveBuffer { buffer_id, content } => {
            put_tag(out, 3);
            put_str(out, buffer_id.as_str());
            put_str(out, content.as_str());
            proof {
                assert(out@ =~= start + enc_req(r.deep_view()));
            }
        },
        CoreRequest::CloseBuffer { buffer_id } => {
            put_tag(out, 4);
            put_str(out, buffer_id.as_str());
            proof {
                assert(out@ =~= start + enc_req(r.deep_view()));
            }
        },
        CoreRequest::Search { query, options } => {
            put_tag(out, 5);
            put_str(out, query.as_str());
            put_options(out, options);
            proof {
                assert(out@ =~= start + enc_req(r.deep_view()));
            }
        },
        CoreRequest::LspRequest { server, method, params } => {
            put_tag(out, 6);
            put_str(out, server.as_str());
            put_str(out, method.as_str());
            put_str(out, params.as_str());
            proof {
                assert(out@ =~= start + enc_req(r.deep_view()));
            }
        },
        CoreRequest::GetProjectFiles { root_path } => {
            put_tag(out, 7);
            put_str(out, root_path.as_str());
            proof {
                assert(out@ =~= start + enc_req(r.deep_view()));
            }
        },
        CoreRequest::GetStats => {
            put_tag(out, 8);
        },
    }
}

fn put_resp(out: &mut Vec<u8>, r: &CoreResponse)
    ensures
        final(out)@ == old(out)@ + enc_resp(r.deep_view()),
        wf_resp(r.deep_view()),
{
    let ghost start = out@;
    match r {
        CoreResponse::Pong => {
            put_tag(out, 0);
        },
        CoreResponse::BufferOpened { buffer_id, content } => {
            put_tag(out, 1);
            put_str(out, buffer_id.as_str());
            put_str(out, content.as_str());
            proof {
                assert(out@ =~= start + enc_resp(r.deep_view()));
            }
        },
        CoreResponse::BufferSaved { buffer_id } => {
            put_tag(out, 2);
            put_str(out, buffer_id.as_str());
            proof {
                assert(out@ =~= start + enc_resp(r.deep_view()));
            }
        },
        CoreResponse::BufferClosed { buffer_id } => {
            put_tag(out, 3);
            put_str(out, buffer_id.as_str());
            proof {
                assert(out@ =~= start + enc_resp(r.deep_view()));
            }
        },
        CoreResponse::SearchResults { results } => {
            put_tag(out, 4);
            put_result_vec(out, results);
            proof {
                assert(out@ =~= start + enc_resp(r.deep_view()));
            }
        },
        CoreResponse::LspResponse { result } => {
            put_tag(out, 5);
            put_str(out, result.as_str());
            proof {
                assert(out@ =~= start + enc_resp(r.deep_view()));
            }
        },
        CoreResponse::ProjectFiles { files } => {
            put_tag(out, 6);
            put_str_vec(out, files);
            proof {
                assert(out@ =~= start + enc_resp(r.deep_view()));
            }
        },
        CoreResponse::Stats { cancels, deadlines, backpressure } => {
            put_tag(out, 7);
            put_u64(out, *cancels);
            put_u64(out, *deadlines);
            put_u64(out, *backpressure);
            proof {
                assert(out@ =~= start + enc_resp(r.deep_view()));
            }
        },
        CoreResponse::Success => {
            put_tag(out, 8);
        },
        CoreResponse::Error { message } => {
            put_tag(out, 9);
            put_str(out, message.as_str());
            proof {
                assert(out@ =~= start + enc_resp(r.deep_view()));
            }
        },
    }
}

fn put_notif(out: &mut Vec<u8>, n: &Notification)
    ensures
        final(out)@ == old(out)@ + enc_notif(n.deep_view()),
        wf_notif(n.deep_view()),
{
    let ghost start = out@;
    match n {
        Notification::BufferChanged { buffer_id, changes } => {
            put_tag(out, 0);
            put_str(out, buffer_id.as_str());
            put_change_vec(out, changes);
            proof {
                assert(out@ =~= start + enc_notif(n.deep_view()));
            }
        },
        Notification::DiagnosticsUpdate { uri, diagnostics } => {
            put_tag(out, 1);
            put_str(out, uri.as_str());
            put_str_vec(out, diagnostics);
            proof {
                assert(out@ =~= start + enc_notif(n.deep_view()));
            }
        },
        Notification::FileSystemChanged { path, change_type } => {
            put_tag(out, 2);
            put_str(out, path.as_str());
            put_fct(out, change_type);
            proof {
                assert(out@ =~= start + enc_notif(n.deep_view()));
            }
        },
    }
}

fn put_payload(out: &mut Vec<u8>, p: &IpcPayload)
    ensures
        final(out)@ == old(out)@ + enc_payload(p.deep_view()),
        wf_payload(p.deep_view()),
{
    let ghost start = out@;
    match p {
        IpcPayload::Request(r) => {
            put_tag(out, 0);
            put_req(out, r);
            proof {
                assert(out@ =~= start + enc_payload(p.deep_view()));
            }
        },
        IpcPayload::Response(r) => {
            put_tag(out, 1);
            put_resp(out, r);
            proof {
                assert(out@ =~= start + enc_payload(p.deep_view()));
            }
        },
        IpcPayload::Notification(n) => {
            put_tag(out, 2);
            put_notif(out, n);
            proof {
                assert(out@ =~= start + enc_payload(p.deep_view()));
            }
        },
        IpcPayload::Cancel(id) => {
            put_tag(out, 3);
            put_u128(out, id.0);
            proof {
                assert(out@ =~= start + enc_payload(p.deep_view()));
            }
        },
    }
}

/// Serializes an envelope into the deterministic binary form given by
/// `codec::enc_msg`. The result is always well formed for decoding.
pub fn encode_message(m: &IpcMessage) -> (r: Vec<u8>)
    ensures
        r@ == enc_msg(m.deep_view()),
        wf_msg(m.deep_view()),
{
    let mut out: Vec<u8> = Vec::new();
    put_u128(&mut out, m.id.0);
    put_u64(&mut out, m.deadline_millis);
    put_payload(&mut out, &m.payload);
    proof {
        assert(out@ =~= enc_msg(m.deep_view()));
    }
    out
}

} // verus!
