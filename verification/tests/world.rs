//! The per-run world around the core: the virtual filesystem a host's
//! persistence lives in, and the stub HTTP backend.

use dst_demo::bank::LocalBank;
use dst_demo::http::{Method, SimulatorClient};
use dst_demo::vfs::VirtualFs;

#[test]
fn filesystem_reads_back_writes() {
    let mut fs = VirtualFs::new();
    let name = b"transactions.db".to_vec();
    assert_eq!(fs.read(&name), None);

    fs.write(&name, b"id=1 created_at=2 amount=$5.00\n".to_vec());
    assert_eq!(fs.read(&name), Some(b"id=1 created_at=2 amount=$5.00\n".to_vec()));

    fs.append(&name, &b"id=2 created_at=3 amount=$-1.00\n".to_vec());
    let contents = fs.read(&name).unwrap();
    assert_eq!(
        contents,
        b"id=1 created_at=2 amount=$5.00\nid=2 created_at=3 amount=$-1.00\n".to_vec()
    );

    let other = b"audit.log".to_vec();
    fs.write(&other, b"ok".to_vec());
    assert_eq!(fs.read(&name), Some(contents.clone()));

    let bank = LocalBank::new(&contents).unwrap();
    assert_eq!(bank.list_transactions().len(), 2);

    fs.reset_fs();
    assert_eq!(fs.read(&name), None);
    assert_eq!(fs.read(&other), None);
}

#[test]
fn filesystem_survives_a_bounce() {
    let mut fs = VirtualFs::new();
    let name = b"transactions.db".to_vec();
    let mut bank = LocalBank::new(&fs.read(&name).unwrap_or_default()).unwrap();
    let t = bank.create_transaction(500, 10);
    let mut line = dst_demo::bank::format_transaction(&t);
    line.push(b'\n');
    fs.append(&name, &line);

    let restarted = LocalBank::new(&fs.read(&name).unwrap()).unwrap();
    assert_eq!(restarted.list_transactions().len(), 1);
    assert_eq!(restarted.get_transaction(1), Some(t));
    let next = LocalBank::new(&fs.read(&name).unwrap())
        .unwrap()
        .create_transaction(100, 11);
    assert_eq!(next.id, 2);
}

#[test]
fn stub_http_answers_empty_success() {
    let client = SimulatorClient::new();
    let mut request = client.request(Method::Get, &b"http://dst_demo_server/health".to_vec());
    request.header(&b"accept".to_vec(), &b"text/plain".to_vec());
    request.body(b"ignored".to_vec());
    let response = request.send();
    assert_eq!(response.status(), 200);
    assert_eq!(response.headers().len(), 0);
    assert_eq!(response.text().len(), 0);
    assert_eq!(response.bytes().len(), 0);
    assert_eq!(Method::Options.to_text(), b"OPTIONS".to_vec());
    assert_eq!(Method::Get.to_text(), b"GET".to_vec());
}
