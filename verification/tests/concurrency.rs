use std::sync::Arc;

use crayon_ctrl::memory::MemoryInterfaces;
use crayon_ctrl::registry::Interfaces;
use tokio::sync::Mutex;

#[test]
fn concurrent_creates_lose_no_update() {
    let runtime = tokio::runtime::Builder::new_multi_thread()
        .worker_threads(4)
        .build()
        .unwrap();

    let names: Vec<String> = (0..16).map(|i| format!("iface{}", i)).collect();
    let shared = Arc::new(Mutex::new(MemoryInterfaces::new()));

    runtime.block_on(async {
        let mut tasks = Vec::new();
        for name in names.clone() {
            let handle = Arc::clone(&shared);
            tasks.push(tokio::spawn(async move {
                let mut reg = handle.lock().await;
                reg.create(&name).unwrap();
            }));
        }
        for task in tasks {
            task.await.unwrap();
        }
    });

    let all = runtime.block_on(async { shared.lock().await.all().unwrap() });
    assert_eq!(all.len(), names.len());
    for name in &names {
        let found = all.iter().filter(|iface| iface.name() == *name).count();
        assert_eq!(found, 1);
    }
}
