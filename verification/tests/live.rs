use std::time::Duration;

use tokio::io::{AsyncReadExt, AsyncWriteExt};

use hyperlocal_with_windows::bridge::{bridge_forward, BridgeDecision};
use hyperlocal_with_windows::channel::BRIDGE_CAPACITY;
use hyperlocal_with_windows::hygiene::{cleanup_result, removal_needed, PathProbe};

fn runtime() -> tokio::runtime::Runtime {
    tokio::runtime::Builder::new_multi_thread()
        .worker_threads(2)
        .enable_all()
        .build()
        .unwrap()
}

async fn probe(path: &str) -> PathProbe {
    match tokio::fs::metadata(path).await {
        Ok(_) => PathProbe::Found,
        Err(err) => {
            if err.kind() == std::io::ErrorKind::NotFound {
                PathProbe::NotFound
            } else {
                PathProbe::ProbeError {
                    code: err.raw_os_error().unwrap_or(0),
                }
            }
        }
    }
}

/// Probe the path and remove what is there, as the serving shell does before
/// binding, deciding through the library.
async fn cleanup(path: &str) -> Result<(), i32> {
    let p = probe(path).await;
    let removal = if removal_needed(&p) {
        Some(
            tokio::fs::remove_file(path)
                .await
                .map_err(|e| e.raw_os_error().unwrap_or(0)),
        )
    } else {
        None
    };
    cleanup_result(&p, removal)
}

#[test]
fn live_bridge_preserves_order() {
    let rt = runtime();
    rt.block_on(async {
        let (tx, mut rx) = tokio::sync::mpsc::channel::<u64>(BRIDGE_CAPACITY);
        let producer = tokio::task::spawn_blocking(move || {
            for i in 1..=3u64 {
                let d = bridge_forward(&tx, i, false);
                assert_eq!(d, BridgeDecision::Continue);
            }
            // tx drops here: the consumer then observes the channel closed.
        });
        let mut seen = Vec::new();
        while let Some(v) = rx.recv().await {
            seen.push(v);
        }
        producer.await.unwrap();
        assert_eq!(seen, vec![1, 2, 3]);
    });
}

#[test]
fn live_bridge_stops_when_consumer_gone() {
    let rt = runtime();
    rt.block_on(async {
        let (tx, rx) = tokio::sync::mpsc::channel::<u64>(BRIDGE_CAPACITY);
        drop(rx);
        let d = tokio::task::spawn_blocking(move || bridge_forward(&tx, 7, false))
            .await
            .unwrap();
        assert_eq!(d, BridgeDecision::StopConsumerGone);
    });
}

#[test]
fn live_backpressure_33rd_send_blocks_until_drained() {
    let rt = runtime();
    rt.block_on(async {
        let (tx, mut rx) = tokio::sync::mpsc::channel::<u64>(BRIDGE_CAPACITY);
        for i in 0..(BRIDGE_CAPACITY as u64) {
            tx.send(i).await.unwrap();
        }
        // The 33rd send finds the channel full and blocks.
        let blocked = tokio::time::timeout(Duration::from_millis(100), tx.send(32)).await;
        assert!(blocked.is_err());
        // Draining one item unblocks it.
        assert_eq!(rx.recv().await, Some(0));
        tokio::time::timeout(Duration::from_secs(5), tx.send(32))
            .await
            .expect("send should go through once one item was drained")
            .unwrap();
        assert_eq!(rx.recv().await, Some(1));
    });
}

#[test]
fn bind_conflict_then_cleanup_allows_rebind() {
    let rt = runtime();
    rt.block_on(async {
        let path = "/tmp/hyperlocal_bind_conflict.sock";
        cleanup(path).await.unwrap();
        let first = tokio::net::UnixListener::bind(path).unwrap();
        // Binding the same path again without cleanup fails with a conflict.
        assert!(tokio::net::UnixListener::bind(path).is_err());
        // After removal, a bind on that path succeeds again.
        assert_eq!(probe(path).await, PathProbe::Found);
        cleanup(path).await.unwrap();
        let second = tokio::net::UnixListener::bind(path).unwrap();
        drop(first);
        drop(second);
        cleanup(path).await.unwrap();
        assert_eq!(probe(path).await, PathProbe::NotFound);
    });
}

#[test]
fn stale_socket_cleanup_and_rebind_accepts_fresh() {
    let rt = runtime();
    rt.block_on(async {
        let path = "/tmp/hyperlocal_stale_rebind.sock";
        cleanup(path).await.unwrap();
        // Leave a stale socket file behind, as an unclean shutdown would.
        let stale = tokio::net::UnixListener::bind(path).unwrap();
        drop(stale);
        assert!(removal_needed(&probe(path).await));
        cleanup(path).await.unwrap();
        // The rebound listener accepts connections with no residual state.
        let listener = tokio::net::UnixListener::bind(path).unwrap();
        let server = tokio::spawn(async move {
            let (mut stream, _) = listener.accept().await.unwrap();
            let mut buf = [0u8; 4];
            stream.read_exact(&mut buf).await.unwrap();
            stream.write_all(&buf).await.unwrap();
        });
        let mut client = tokio::net::UnixStream::connect(path).await.unwrap();
        client.write_all(b"ping").await.unwrap();
        let mut back = [0u8; 4];
        client.read_exact(&mut back).await.unwrap();
        assert_eq!(&back, b"ping");
        server.await.unwrap();
        cleanup(path).await.unwrap();
    });
}
