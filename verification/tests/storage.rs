use projeto_sd::models::{Cliente, Instante, Pedido, PedidoStatus};
use projeto_sd::storage::Storage;

fn instante(segundos: i64, nanos: u32) -> Instante {
    Instante { segundos, nanos }
}

fn cliente(id: &str, nome: &str, segundos: i64, nanos: u32) -> Cliente {
    Cliente {
        id: id.to_string(),
        nome: nome.to_string(),
        email: format!("{nome}@email.com"),
        criado_em: instante(segundos, nanos),
    }
}

fn pedido(id: &str, cliente_id: &str, valor: f64, segundos: i64) -> Pedido {
    Pedido {
        id: id.to_string(),
        cliente_id: cliente_id.to_string(),
        descricao: format!("pedido {id}"),
        valor_bits: valor.to_bits(),
        status: PedidoStatus::Pendente,
        criado_em: instante(segundos, 0),
    }
}

#[test]
fn storage_novo_esta_vazio() {
    let s = Storage::new();
    assert!(s.listar_clientes().is_empty());
    assert!(s.listar_pedidos().is_empty());
    assert!(s.buscar_cliente("qualquer").is_none());
}

#[test]
fn buscar_cliente_apos_inserir() {
    let mut s = Storage::new();
    s.inserir_cliente(cliente("a", "Ana", 10, 0));
    s.inserir_cliente(cliente("b", "Bruno", 5, 0));
    let a = s.buscar_cliente("a").expect("a foi inserido");
    assert_eq!(a.nome, "Ana");
    assert_eq!(a.criado_em, instante(10, 0));
    assert_eq!(s.buscar_cliente("b").unwrap().nome, "Bruno");
    assert!(s.buscar_cliente("c").is_none());
    assert!(s.buscar_cliente("").is_none());
}

#[test]
fn inserir_cliente_com_mesmo_id_substitui() {
    let mut s = Storage::new();
    s.inserir_cliente(cliente("a", "Ana", 10, 0));
    s.inserir_cliente(cliente("a", "Alice", 20, 0));
    let lista = s.listar_clientes();
    assert_eq!(lista.len(), 1);
    assert_eq!(lista[0].nome, "Alice");
    assert_eq!(s.buscar_cliente("a").unwrap().criado_em, instante(20, 0));
}

#[test]
fn listar_clientes_ordena_por_criacao() {
    let mut s = Storage::new();
    s.inserir_cliente(cliente("c", "Carla", 30, 0));
    s.inserir_cliente(cliente("a", "Ana", 10, 500));
    s.inserir_cliente(cliente("d", "Davi", 10, 100));
    s.inserir_cliente(cliente("b", "Bruno", -5, 999_999_999));
    let ids: Vec<String> = s.listar_clientes().into_iter().map(|c| c.id).collect();
    assert_eq!(ids, vec!["b", "d", "a", "c"]);
}

#[test]
fn listar_clientes_empate_mantem_todos() {
    let mut s = Storage::new();
    s.inserir_cliente(cliente("x", "X", 7, 7));
    s.inserir_cliente(cliente("y", "Y", 7, 7));
    s.inserir_cliente(cliente("z", "Z", 1, 0));
    let lista = s.listar_clientes();
    assert_eq!(lista.len(), 3);
    assert_eq!(lista[0].id, "z");
    let mut resto: Vec<String> = lista[1..].iter().map(|c| c.id.clone()).collect();
    resto.sort();
    assert_eq!(resto, vec!["x", "y"]);
}

#[test]
fn segundo_bissexto_vem_depois() {
    let mut s = Storage::new();
    s.inserir_cliente(cliente("bissexto", "B", 100, 1_500_000_000));
    s.inserir_cliente(cliente("seguinte", "S", 101, 0));
    s.inserir_cliente(cliente("antes", "A", 100, 999_999_999));
    let ids: Vec<String> = s.listar_clientes().into_iter().map(|c| c.id).collect();
    assert_eq!(ids, vec!["antes", "bissexto", "seguinte"]);
}

#[test]
fn pedidos_e_clientes_sao_independentes() {
    let mut s = Storage::new();
    s.inserir_pedido(pedido("p1", "a", 3500.0, 3));
    assert!(s.listar_clientes().is_empty());
    assert!(s.buscar_cliente("p1").is_none());
    s.inserir_cliente(cliente("a", "Ana", 1, 0));
    assert_eq!(s.listar_pedidos().len(), 1);
}

#[test]
fn listar_pedidos_ordena_e_preserva_valor() {
    let mut s = Storage::new();
    s.inserir_pedido(pedido("p2", "a", 10.5, 20));
    s.inserir_pedido(pedido("p1", "a", 3500.0, 10));
    s.inserir_pedido(pedido("p3", "b", -0.0, 30));
    let lista = s.listar_pedidos();
    let ids: Vec<&str> = lista.iter().map(|p| p.id.as_str()).collect();
    assert_eq!(ids, vec!["p1", "p2", "p3"]);
    assert_eq!(f64::from_bits(lista[0].valor_bits), 3500.0);
    assert_eq!(f64::from_bits(lista[1].valor_bits), 10.5);
    assert_eq!(lista[2].valor_bits, (-0.0f64).to_bits());
    assert_eq!(lista[0].status, PedidoStatus::Pendente);
}

#[test]
fn inserir_pedido_com_mesmo_id_substitui() {
    let mut s = Storage::new();
    s.inserir_pedido(pedido("p", "a", 1.0, 1));
    let mut outro = pedido("p", "b", 2.0, 2);
    outro.status = PedidoStatus::Cancelado;
    s.inserir_pedido(outro);
    let lista = s.listar_pedidos();
    assert_eq!(lista.len(), 1);
    assert_eq!(lista[0].cliente_id, "b");
    assert_eq!(lista[0].status, PedidoStatus::Cancelado);
}

#[test]
fn leitura_apos_escrita_em_valores_concretos() {
    let mut s = Storage::new();
    for i in 0..20 {
        s.inserir_cliente(cliente(&format!("id{i}"), &format!("n{i}"), 100 - i, 0));
    }
    s.inserir_cliente(cliente("id7", "novo", 0, 0));
    assert_eq!(s.buscar_cliente("id7").unwrap().nome, "novo");
    assert_eq!(s.buscar_cliente("id8").unwrap().nome, "n8");
    let lista = s.listar_clientes();
    assert_eq!(lista.len(), 20);
    assert!(lista.iter().any(|c| c.id == "id7" && c.nome == "novo"));
    assert_eq!(lista[0].id, "id7");
    assert_eq!(lista[19].id, "id0");
}

#[test]
fn mais_recente_vai_para_o_fim() {
    let mut s = Storage::new();
    s.inserir_pedido(pedido("b", "c", 1.0, 20));
    s.inserir_pedido(pedido("a", "c", 1.0, 10));
    s.inserir_pedido(pedido("d", "c", 1.0, 30));
    let antes: Vec<String> = s.listar_pedidos().into_iter().map(|p| p.id).collect();
    s.inserir_pedido(pedido("z", "c", 1.0, 40));
    let depois: Vec<String> = s.listar_pedidos().into_iter().map(|p| p.id).collect();
    let mut esperado = antes.clone();
    esperado.push("z".to_string());
    assert_eq!(depois, esperado);
    assert_eq!(antes, vec!["a", "b", "d"]);
}

#[test]
fn listagem_determinada_com_instantes_distintos() {
    let mut s1 = Storage::new();
    let mut s2 = Storage::new();
    for (id, t) in [("p", 3), ("q", 1), ("r", 2)] {
        s1.inserir_cliente(cliente(id, id, t, 0));
    }
    for (id, t) in [("r", 2), ("p", 3), ("q", 1)] {
        s2.inserir_cliente(cliente(id, id, t, 0));
    }
    let l1: Vec<String> = s1.listar_clientes().into_iter().map(|c| c.id).collect();
    let l2: Vec<String> = s2.listar_clientes().into_iter().map(|c| c.id).collect();
    assert_eq!(l1, l2);
    assert_eq!(l1, vec!["q", "r", "p"]);
}
