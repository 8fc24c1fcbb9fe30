use projeto_sd::api::{
    concluir_criacao_cliente, concluir_criacao_pedido, criar_cliente, criar_pedido,
    desfecho_replicacao, health, listar_clientes, listar_pedidos, montar_cliente, montar_pedido,
    planejar_replicacao, replicar, saude_em_falha, saude_viva, simular_falha, AppState,
    EnvioReplicacao, PlanoCriacao, Replicacao,
};
use projeto_sd::models::{
    ApiResposta, Cliente, CriarClienteDto, CriarPedidoDto, DadosReplicacao, Instante, Pedido,
    PedidoStatus, ReplicacaoPayload,
};

/// Stores `c` directly in the node's storage.
fn gravar_cliente(s: &mut AppState, c: Cliente) {
    s.storage.inserir_cliente(c);
}

fn envio_de<T>(plano: &PlanoCriacao<T>) -> &EnvioReplicacao {
    match &plano.replicacao {
        Replicacao::Enviar(e) => e,
        _ => panic!("esperava envio ao backup"),
    }
}

fn payload_teste() -> ReplicacaoPayload {
    ReplicacaoPayload {
        operacao: "criar_cliente".to_string(),
        dados: DadosReplicacao::Cliente(Cliente {
            id: "x".to_string(),
            nome: "n".to_string(),
            email: "e".to_string(),
            criado_em: Instante { segundos: 0, nanos: 0 },
        }),
    }
}

fn primario() -> AppState {
    AppState::new("primario".to_string(), Some("http://backup:8081".to_string()))
}

fn backup() -> AppState {
    AppState::new("backup".to_string(), None)
}

fn dto_cliente(nome: &str, email: &str) -> CriarClienteDto {
    CriarClienteDto { nome: nome.to_string(), email: email.to_string() }
}

fn eh_uuid_v4(s: &str) -> bool {
    let c: Vec<char> = s.chars().collect();
    c.len() == 36
        && c.iter().enumerate().all(|(i, ch)| {
            if i == 8 || i == 13 || i == 18 || i == 23 {
                *ch == '-'
            } else {
                ch.is_ascii_digit() || ('a'..='f').contains(ch)
            }
        })
        && c[14] == '4'
        && "89ab".contains(c[19])
}

fn cliente_fixo(id: &str) -> Cliente {
    Cliente {
        id: id.to_string(),
        nome: "João Silva".to_string(),
        email: "joao@email.com".to_string(),
        criado_em: Instante { segundos: 1_700_000_000, nanos: 5 },
    }
}

#[test]
fn api_resposta_ok_e_erro() {
    let r = ApiResposta::ok(7u8, "OK", "primario");
    assert!(r.sucesso);
    assert_eq!(r.dados, Some(7));
    assert_eq!(r.mensagem, "OK");
    assert_eq!(r.no, "primario");
    let e = ApiResposta::<u8>::erro("Cliente não encontrado", "backup");
    assert!(!e.sucesso);
    assert_eq!(e.dados, None);
    assert_eq!(e.mensagem, "Cliente não encontrado");
    assert_eq!(e.no, "backup");
}

#[test]
fn novo_no_esta_vivo_e_vazio() {
    let s = primario();
    assert!(s.alive);
    assert_eq!(s.role, "primario");
    assert!(s.storage.listar_clientes().is_empty());
}

#[test]
fn health_vivo_responde_200() {
    let s = primario();
    let r = health(&s);
    assert_eq!(r.codigo, 200);
    assert_eq!(r.status, "ok");
    assert_eq!(r.no, "primario");
    let t = r.timestamp.expect("timestamp presente");
    assert!(t.segundos > 1_600_000_000);
    assert!(t.nanos < 1_000_000_000);
}

#[test]
fn falha_simulada_faz_health_responder_503() {
    let mut s = primario();
    let c = criar_cliente(&s, dto_cliente("Teste", "t@t.com"));
    assert!(concluir_criacao_cliente(&mut s, c, Some(Ok(()))).is_ok());
    let r = simular_falha(&mut s);
    assert_eq!(r.mensagem, "Falha simulada. O Nginx irá redirecionar para o backup.");
    assert_eq!(r.no, "primario");
    assert!(!s.alive);
    let h = health(&s);
    assert_eq!(h.codigo, 503);
    assert_eq!(h.status, "falha simulada");
    assert_eq!(h.no, "primario");
    assert!(h.timestamp.is_none());
    assert_eq!(s.storage.listar_clientes().len(), 1);
}

#[test]
fn plano_de_replicacao_por_papel() {
    match planejar_replicacao(&primario(), payload_teste()) {
        Replicacao::Enviar(e) => {
            assert_eq!(e.backup_url, "http://backup:8081");
            assert_eq!(e.payload.operacao, "criar_cliente");
        }
        _ => panic!("primário com backup envia"),
    }
    assert!(matches!(planejar_replicacao(&backup(), payload_teste()), Replicacao::Dispensada));
    let sem_backup = AppState::new("primario".to_string(), None);
    assert!(matches!(planejar_replicacao(&sem_backup, payload_teste()), Replicacao::SemBackup));
    let backup_com_url = AppState::new("backup".to_string(), Some("http://x".to_string()));
    assert!(matches!(planejar_replicacao(&backup_com_url, payload_teste()), Replicacao::Dispensada));
    let maiusculo = AppState::new("Primario".to_string(), Some("http://x".to_string()));
    assert!(matches!(planejar_replicacao(&maiusculo, payload_teste()), Replicacao::Dispensada));
}

#[test]
fn desfecho_de_cada_plano() {
    let b = backup();
    assert_eq!(desfecho_replicacao(&b, &Replicacao::Dispensada, None), Ok(()));
    assert_eq!(desfecho_replicacao(&b, &Replicacao::SemBackup, Some(Err("x".to_string()))), Ok(()));
    let sem = AppState::new("primario".to_string(), None);
    let nao_configurado = Err("backup não configurado".to_string());
    assert_eq!(desfecho_replicacao(&sem, &Replicacao::SemBackup, None), nao_configurado);
    assert_eq!(desfecho_replicacao(&sem, &Replicacao::Dispensada, Some(Ok(()))), nao_configurado);
    let p = primario();
    let enviar = planejar_replicacao(&p, payload_teste());
    assert_eq!(desfecho_replicacao(&sem, &enviar, Some(Ok(()))), nao_configurado);
    assert_eq!(desfecho_replicacao(&p, &enviar, Some(Ok(()))), Ok(()));
    assert_eq!(desfecho_replicacao(&p, &enviar, Some(Err("x".to_string()))), Err("x".to_string()));
    let nao_realizada = Err("replicação não realizada".to_string());
    assert_eq!(desfecho_replicacao(&p, &enviar, None), nao_realizada);
    assert_eq!(desfecho_replicacao(&p, &Replicacao::Dispensada, Some(Ok(()))), nao_realizada);
}

#[test]
fn primario_nao_confirma_plano_sem_envio() {
    let mut p = primario();
    let plano = PlanoCriacao { registro: cliente_fixo("z"), replicacao: Replicacao::Dispensada };
    let r = concluir_criacao_cliente(&mut p, plano, Some(Ok(()))).err().expect("503");
    assert_eq!(r.codigo, 503);
    assert_eq!(
        r.corpo.mensagem,
        "Replicação falhou — consistência não garantida: replicação não realizada"
    );
    assert!(p.storage.buscar_cliente("z").is_none());
}

#[test]
fn saude_com_instante_dado() {
    let t = Instante { segundos: 1_431_648_000, nanos: 7 };
    let r = saude_viva("backup", t);
    assert_eq!(r.codigo, 200);
    assert_eq!(r.status, "ok");
    assert_eq!(r.no, "backup");
    assert_eq!(r.timestamp, Some(t));
    let f = saude_em_falha("primario");
    assert_eq!(f.codigo, 503);
    assert_eq!(f.status, "falha simulada");
    assert_eq!(f.no, "primario");
    assert_eq!(f.timestamp, None);
}

#[test]
fn primario_sem_backup_nao_confirma() {
    let mut s = AppState::new("primario".to_string(), None);
    let plano = criar_cliente(&s, dto_cliente("Ana", "ana@x.com"));
    assert!(matches!(plano.replicacao, Replicacao::SemBackup));
    let id = plano.registro.id.clone();
    let r = concluir_criacao_cliente(&mut s, plano, None).err().expect("503");
    assert_eq!(r.codigo, 503);
    assert!(!r.corpo.sucesso);
    assert_eq!(
        r.corpo.mensagem,
        "Replicação falhou — consistência não garantida: backup não configurado"
    );
    assert!(s.storage.buscar_cliente(&id).is_none());

    gravar_cliente(&mut s, cliente_fixo("c1"));
    let dto = CriarPedidoDto {
        cliente_id: "c1".to_string(),
        descricao: "d".to_string(),
        valor_bits: 0,
    };
    let plano = criar_pedido(&s, dto).ok().expect("cliente existe");
    assert!(matches!(plano.replicacao, Replicacao::SemBackup));
    let r = concluir_criacao_pedido(&mut s, plano, None).err().expect("503");
    assert_eq!(r.codigo, 503);
    assert_eq!(r.corpo.mensagem, "Replicação falhou: backup não configurado");
    assert!(listar_pedidos(&s).dados.unwrap().is_empty());
}

#[test]
fn montar_cliente_usa_os_dados_dados() {
    let c = montar_cliente(
        dto_cliente("Ana", "ana@x.com"),
        "id-1".to_string(),
        Instante { segundos: 42, nanos: 9 },
    );
    assert_eq!(c.id, "id-1");
    assert_eq!(c.nome, "Ana");
    assert_eq!(c.email, "ana@x.com");
    assert_eq!(c.criado_em, Instante { segundos: 42, nanos: 9 });
}

#[test]
fn criar_cliente_no_primario_planeja_replicacao() {
    let s = primario();
    let plano = criar_cliente(&s, dto_cliente("João Silva", "joao@email.com"));
    assert_eq!(plano.registro.nome, "João Silva");
    assert_eq!(plano.registro.email, "joao@email.com");
    assert!(eh_uuid_v4(&plano.registro.id), "{}", plano.registro.id);
    assert!(plano.registro.criado_em.segundos > 1_600_000_000);
    let envio = envio_de(&plano);
    assert_eq!(envio.backup_url, "http://backup:8081");
    assert_eq!(envio.payload.operacao, "criar_cliente");
    match &envio.payload.dados {
        DadosReplicacao::Cliente(c) => {
            assert_eq!(c.id, plano.registro.id);
            assert_eq!(c.nome, plano.registro.nome);
            assert_eq!(c.criado_em, plano.registro.criado_em);
        }
        DadosReplicacao::Pedido(_) => panic!("esperava um cliente"),
    }
}

#[test]
fn criar_cliente_gera_ids_distintos() {
    let s = backup();
    let a = criar_cliente(&s, dto_cliente("A", "a@a"));
    let b = criar_cliente(&s, dto_cliente("A", "a@a"));
    assert_ne!(a.registro.id, b.registro.id);
    assert!(matches!(a.replicacao, Replicacao::Dispensada));
}

#[test]
fn concluir_cliente_com_ack_grava_e_responde_201() {
    let mut s = primario();
    let plano = criar_cliente(&s, dto_cliente("Ana", "ana@x.com"));
    let id = plano.registro.id.clone();
    let r = concluir_criacao_cliente(&mut s, plano, Some(Ok(()))).ok().expect("201");
    assert_eq!(r.codigo, 201);
    assert!(r.corpo.sucesso);
    assert_eq!(r.corpo.mensagem, "Cliente criado");
    assert_eq!(r.corpo.no, "primario");
    assert_eq!(r.corpo.dados.unwrap().id, id);
    assert_eq!(s.storage.buscar_cliente(&id).unwrap().nome, "Ana");
}

#[test]
fn concluir_cliente_sem_ack_nao_grava_e_responde_503() {
    let mut s = primario();
    let plano = criar_cliente(&s, dto_cliente("Ana", "ana@x.com"));
    let id = plano.registro.id.clone();
    let r = concluir_criacao_cliente(&mut s, plano, Some(Err("Backup indisponível: x".to_string())))
        .err()
        .expect("503");
    assert_eq!(r.codigo, 503);
    assert!(!r.corpo.sucesso);
    assert_eq!(r.corpo.dados, None);
    assert_eq!(
        r.corpo.mensagem,
        "Replicação falhou — consistência não garantida: Backup indisponível: x"
    );
    assert_eq!(r.corpo.no, "primario");
    assert!(s.storage.buscar_cliente(&id).is_none());
    assert!(listar_clientes(&s).dados.unwrap().is_empty());
}

#[test]
fn listar_clientes_envelope() {
    let mut s = backup();
    gravar_cliente(&mut s, cliente_fixo("b"));
    let mut mais_cedo = cliente_fixo("a");
    mais_cedo.criado_em = Instante { segundos: 1, nanos: 0 };
    gravar_cliente(&mut s, mais_cedo);
    let r = listar_clientes(&s);
    assert!(r.sucesso);
    assert_eq!(r.mensagem, "OK");
    assert_eq!(r.no, "backup");
    let ids: Vec<String> = r.dados.unwrap().into_iter().map(|c| c.id).collect();
    assert_eq!(ids, vec!["a", "b"]);
}

#[test]
fn criar_pedido_sem_cliente_responde_404() {
    let s = primario();
    let dto = CriarPedidoDto {
        cliente_id: "inexistente".to_string(),
        descricao: "Notebook".to_string(),
        valor_bits: 3500.0f64.to_bits(),
    };
    let r = criar_pedido(&s, dto).err().expect("404");
    assert_eq!(r.codigo, 404);
    assert!(!r.corpo.sucesso);
    assert_eq!(r.corpo.mensagem, "Cliente não encontrado");
    assert_eq!(r.corpo.no, "primario");
}

#[test]
fn criar_pedido_para_cliente_existente() {
    let mut s = primario();
    gravar_cliente(&mut s, cliente_fixo("c1"));
    let dto = CriarPedidoDto {
        cliente_id: "c1".to_string(),
        descricao: "Notebook".to_string(),
        valor_bits: 3500.0f64.to_bits(),
    };
    let plano = criar_pedido(&s, dto).ok().expect("cliente existe");
    assert_eq!(plano.registro.cliente_id, "c1");
    assert_eq!(plano.registro.descricao, "Notebook");
    assert_eq!(f64::from_bits(plano.registro.valor_bits), 3500.0);
    assert_eq!(plano.registro.status, PedidoStatus::Pendente);
    assert!(eh_uuid_v4(&plano.registro.id));
    let envio = envio_de(&plano);
    assert_eq!(envio.payload.operacao, "criar_pedido");
    assert!(matches!(&envio.payload.dados, DadosReplicacao::Pedido(p) if p.id == plano.registro.id));

    let id = plano.registro.id.clone();
    let r = concluir_criacao_pedido(&mut s, plano, Some(Ok(()))).ok().expect("201");
    assert_eq!(r.codigo, 201);
    assert_eq!(r.corpo.mensagem, "Pedido criado");
    let lista = listar_pedidos(&s).dados.unwrap();
    assert_eq!(lista.len(), 1);
    assert_eq!(lista[0].id, id);
}

#[test]
fn concluir_pedido_sem_ack_responde_503() {
    let mut s = primario();
    let p = montar_pedido(
        CriarPedidoDto { cliente_id: "c".to_string(), descricao: "d".to_string(), valor_bits: 1 },
        "p".to_string(),
        Instante { segundos: 3, nanos: 0 },
    );
    assert_eq!(p.status, PedidoStatus::Pendente);
    assert_eq!(p.valor_bits, 1);
    let plano = criar_plano_pedido(&s, p);
    let r = concluir_criacao_pedido(&mut s, plano, Some(Err("Backup recusou operação: não".to_string())))
        .err()
        .expect("503");
    assert_eq!(r.codigo, 503);
    assert_eq!(r.corpo.mensagem, "Replicação falhou: Backup recusou operação: não");
    assert!(listar_pedidos(&s).dados.unwrap().is_empty());
}

fn pedido_fixo(id: &str) -> Pedido {
    Pedido {
        id: id.to_string(),
        cliente_id: "c".to_string(),
        descricao: "Notebook".to_string(),
        valor_bits: 3500.0f64.to_bits(),
        status: PedidoStatus::Pendente,
        criado_em: Instante { segundos: 9, nanos: 9 },
    }
}

#[test]
fn replicar_cliente_grava_e_confirma() {
    let mut b = backup();
    let r = replicar(&mut b, "criar_cliente", Ok(cliente_fixo("c")), Err("não é pedido".to_string()));
    assert_eq!(r.codigo, 200);
    assert!(r.ack.aceito);
    assert_eq!(r.ack.mensagem, "Cliente replicado com sucesso");
    assert_eq!(b.storage.buscar_cliente("c").unwrap().nome, "João Silva");
    assert!(b.storage.listar_pedidos().is_empty());
}

#[test]
fn replicar_pedido_grava_e_confirma() {
    let mut b = backup();
    let r = replicar(&mut b, "criar_pedido", Err("x".to_string()), Ok(pedido_fixo("p")));
    assert_eq!(r.codigo, 200);
    assert!(r.ack.aceito);
    assert_eq!(r.ack.mensagem, "Pedido replicado com sucesso");
    assert_eq!(b.storage.listar_pedidos()[0].id, "p");
    assert!(b.storage.listar_clientes().is_empty());
}

#[test]
fn replicar_payload_invalido_recusa_com_400() {
    let mut b = backup();
    let r = replicar(&mut b, "criar_cliente", Err("missing field `id`".to_string()), Ok(pedido_fixo("p")));
    assert_eq!(r.codigo, 400);
    assert!(!r.ack.aceito);
    assert_eq!(r.ack.mensagem, "Payload inválido: missing field `id`");
    assert!(b.storage.listar_clientes().is_empty());
    assert!(b.storage.listar_pedidos().is_empty());

    let r = replicar(&mut b, "criar_pedido", Ok(cliente_fixo("c")), Err("bad".to_string()));
    assert_eq!(r.codigo, 400);
    assert_eq!(r.ack.mensagem, "Payload inválido: bad");
    assert!(b.storage.listar_clientes().is_empty());
}

#[test]
fn replicar_operacao_desconhecida_recusa_com_400() {
    let mut b = backup();
    let r = replicar(&mut b, "apagar_tudo", Ok(cliente_fixo("c")), Ok(pedido_fixo("p")));
    assert_eq!(r.codigo, 400);
    assert!(!r.ack.aceito);
    assert_eq!(r.ack.mensagem, "Operação desconhecida: apagar_tudo");
    assert!(b.storage.listar_clientes().is_empty());
    assert!(b.storage.listar_pedidos().is_empty());
}

#[test]
fn consistencia_forte_primario_e_backup_iguais() {
    let mut p = primario();
    let mut b = backup();
    let plano = criar_cliente(&p, dto_cliente("Teste", "t@t.com"));
    let enviado = match &envio_de(&plano).payload.dados {
        DadosReplicacao::Cliente(c) => c.clone(),
        DadosReplicacao::Pedido(_) => panic!("esperava cliente"),
    };
    let ack = replicar(&mut b, "criar_cliente", Ok(enviado), Err("-".to_string()));
    assert!(ack.ack.aceito);
    let fim = if ack.ack.aceito { Ok(()) } else { Err(ack.ack.mensagem) };
    concluir_criacao_cliente(&mut p, plano, Some(fim)).ok().unwrap();
    let lp = p.storage.listar_clientes();
    let lb = b.storage.listar_clientes();
    assert_eq!(lp.len(), 1);
    assert_eq!(lb.len(), 1);
    assert_eq!(lp[0].id, lb[0].id);
    assert_eq!(lp[0].nome, lb[0].nome);
    assert_eq!(lp[0].email, lb[0].email);
    assert_eq!(lp[0].criado_em, lb[0].criado_em);
}

#[test]
fn replicacao_repetida_nao_muda_o_backup() {
    let mut b = backup();
    replicar(&mut b, "criar_cliente", Ok(cliente_fixo("c")), Err("-".to_string()));
    replicar(&mut b, "criar_cliente", Ok(cliente_fixo("c")), Err("-".to_string()));
    assert_eq!(b.storage.listar_clientes().len(), 1);
}

/// A plan that sends `p` to the primary's backup.
fn criar_plano_pedido(s: &AppState, p: Pedido) -> PlanoCriacao<Pedido> {
    let payload = ReplicacaoPayload {
        operacao: "criar_pedido".to_string(),
        dados: DadosReplicacao::Pedido(p.clone()),
    };
    PlanoCriacao { registro: p, replicacao: planejar_replicacao(s, payload) }
}

#[test]
fn ack_tardio_backup_guarda_primario_nao() {
    let mut p = primario();
    let mut b = backup();
    let plano = criar_cliente(&p, dto_cliente("Tardio", "t@t.com"));
    let enviado = match &envio_de(&plano).payload.dados {
        DadosReplicacao::Cliente(c) => c.clone(),
        DadosReplicacao::Pedido(_) => panic!("esperava cliente"),
    };
    let id = enviado.id.clone();
    assert!(replicar(&mut b, "criar_cliente", Ok(enviado), Err("-".to_string())).ack.aceito);
    let r = concluir_criacao_cliente(
        &mut p,
        plano,
        Some(Err("Backup indisponível: operation timed out".to_string())),
    );
    assert_eq!(r.err().expect("503").codigo, 503);
    assert!(b.storage.buscar_cliente(&id).is_some());
    assert!(p.storage.buscar_cliente(&id).is_none());
}

#[test]
fn falha_persiste_apos_outras_chamadas() {
    let mut s = primario();
    simular_falha(&mut s);
    let plano = criar_cliente(&s, dto_cliente("A", "a@a"));
    let _ = concluir_criacao_cliente(&mut s, plano, Some(Ok(())));
    let _ = replicar(&mut s, "criar_cliente", Ok(cliente_fixo("x")), Err("-".to_string()));
    simular_falha(&mut s);
    assert!(!s.alive);
    assert_eq!(health(&s).codigo, 503);
    assert_eq!(s.storage.listar_clientes().len(), 2);
}
