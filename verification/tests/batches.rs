use json_rpc_backend::assemble::{assemble, HttpPayload};
use json_rpc_backend::batch::{join_chunks, partition, process_batch, process_chunk};
use json_rpc_backend::dispatch::Registry;
use json_rpc_backend::json::JsonValue;
use json_rpc_backend::rpc::{Errors, Request, Response};

fn probe(id: u64) -> Request {
    Request {
        jsonrpc: String::from("2.0"),
        id: JsonValue::Uint(id),
        method: String::from("healthcheck"),
        params: None,
    }
}

#[test]
fn order_is_preserved_for_every_worker_count() {
    for workers in [1usize, 2, 3, 4, 7, 16] {
        let batch: Vec<Request> = (0..7).map(probe).collect();
        let reg = Registry::standard();
        let out = process_batch(batch, &reg, workers, 5);
        assert_eq!(out.len(), 7);
        for (i, resp) in out.iter().enumerate() {
            assert_eq!(resp.id, JsonValue::Uint(i as u64));
            assert!(resp.result.is_some());
            assert!(resp.error.is_none());
        }
    }
}

#[test]
fn mixed_batch_keeps_positions() {
    let reg = Registry::standard();
    let batch = vec![
        probe(0),
        Request {
            jsonrpc: String::from("2.0"),
            id: JsonValue::Uint(1),
            method: String::from("nope"),
            params: None,
        },
        Request {
            jsonrpc: String::from("1.0"),
            id: JsonValue::Uint(2),
            method: String::from("healthcheck"),
            params: None,
        },
        probe(3),
    ];
    let out = process_batch(batch, &reg, 2, 5);
    assert_eq!(out.len(), 4);
    assert!(out[0].error.is_none());
    assert_eq!(out[1].error.as_ref().unwrap().code, -32601);
    assert_eq!(out[2].error.as_ref().unwrap().code, -32600);
    assert!(out[3].error.is_none());
    for (i, resp) in out.iter().enumerate() {
        assert_eq!(resp.id, JsonValue::Uint(i as u64));
    }
}

#[test]
fn partition_balances_chunks() {
    let batch: Vec<Request> = (0..10).map(probe).collect();
    let chunks = partition(batch, 4);
    // ten requests over four workers: chunks of three, the last shorter
    let sizes: Vec<usize> = chunks.iter().map(|c| c.len()).collect();
    assert_eq!(sizes, vec![3, 3, 3, 1]);
}

#[test]
fn partition_never_exceeds_the_worker_count() {
    for n in 0usize..26 {
        for workers in 1usize..9 {
            let batch: Vec<Request> = (0..n as u64).map(probe).collect();
            let chunks = partition(batch, workers);
            assert!(chunks.len() <= workers);
            let total: usize = chunks.iter().map(|c| c.len()).sum();
            assert_eq!(total, n);
            for chunk in &chunks {
                assert!(!chunk.is_empty());
            }
        }
    }
}

#[test]
fn empty_batch_yields_no_chunks_and_an_empty_array() {
    let chunks = partition(Vec::new(), 3);
    assert_eq!(chunks.len(), 0);
    let reg = Registry::standard();
    let out = process_batch(Vec::new(), &reg, 3, 0);
    assert_eq!(out.len(), 0);
    let reply = assemble(out);
    assert_eq!(reply.status, 200);
    match reply.payload {
        HttpPayload::Many(v) => assert!(v.is_empty()),
        HttpPayload::Single(_) => panic!("an empty batch must stay an array"),
    }
}

#[test]
fn join_concatenates_in_chunk_order() {
    let reg = Registry::standard();
    let first = process_chunk(&vec![probe(0), probe(1)], &reg, 0);
    let second = process_chunk(&vec![probe(2)], &reg, 0);
    let joined = join_chunks(vec![first, second]);
    assert_eq!(joined.len(), 3);
    for (i, resp) in joined.iter().enumerate() {
        assert_eq!(resp.id, JsonValue::Uint(i as u64));
    }
}

#[test]
fn singleton_batch_unwraps_to_a_bare_object() {
    let reg = Registry::standard();
    let out = process_batch(vec![probe(0)], &reg, 1, 0);
    let reply = assemble(out);
    assert_eq!(reply.status, 200);
    match reply.payload {
        HttpPayload::Single(resp) => assert_eq!(resp.id, JsonValue::Uint(0)),
        HttpPayload::Many(_) => panic!("a singleton batch must be unwrapped"),
    }
}

#[test]
fn two_element_batch_stays_an_array_even_when_both_error() {
    let erring = vec![
        Response::new(JsonValue::Uint(0), None, Some(Errors::MethodNotFound.to_error(None))),
        Response::new(JsonValue::Uint(1), None, Some(Errors::InvalidParams.to_error(None))),
    ];
    let reply = assemble(erring);
    assert_eq!(reply.status, 200);
    match reply.payload {
        HttpPayload::Many(v) => assert_eq!(v.len(), 2),
        HttpPayload::Single(_) => panic!("two responses must stay an array"),
    }
}

#[test]
fn singleton_status_follows_the_error_code() {
    let not_found = vec![Response::new(
        JsonValue::Uint(0),
        None,
        Some(Errors::MethodNotFound.to_error(None)),
    )];
    assert_eq!(assemble(not_found).status, 404);

    let invalid = vec![Response::new(
        JsonValue::Uint(0),
        None,
        Some(Errors::InvalidRequest.to_error(None)),
    )];
    assert_eq!(assemble(invalid).status, 400);

    let fine = vec![Response::new(JsonValue::Uint(0), Some(JsonValue::Null), None)];
    assert_eq!(assemble(fine).status, 200);
}
