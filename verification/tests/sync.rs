use projeto_sd::models::AckResposta;
use projeto_sd::sync::{avancar_replicacao, url_replicacao, EtapaEnvio, Passo, TIMEOUT_REPLICACAO_SEGUNDOS};
use projeto_sd::texto::{concatenar, mesmo_texto};

fn erro(p: Passo) -> String {
    match p {
        Passo::Concluir(Err(m)) => m,
        Passo::Concluir(Ok(())) => panic!("esperava erro, veio Ok"),
        Passo::Continuar => panic!("esperava erro, veio Continuar"),
    }
}

#[test]
fn url_de_replicacao() {
    assert_eq!(url_replicacao("http://backup:8081"), "http://backup:8081/interno/replicar");
    assert_eq!(url_replicacao(""), "/interno/replicar");
}

#[test]
fn tempo_limite_de_tres_segundos() {
    assert_eq!(TIMEOUT_REPLICACAO_SEGUNDOS, 3);
}

#[test]
fn falha_ao_criar_cliente_http() {
    let p = avancar_replicacao(EtapaEnvio::ClienteHttpFalhou("tls".to_string()));
    assert_eq!(erro(p), "Erro ao criar cliente HTTP: tls");
}

#[test]
fn backup_indisponivel() {
    let p = avancar_replicacao(EtapaEnvio::EnvioFalhou("connection refused".to_string()));
    assert_eq!(erro(p), "Backup indisponível: connection refused");
}

#[test]
fn status_de_sucesso_continua() {
    for codigo in [200u16, 201, 204, 299] {
        let p = avancar_replicacao(EtapaEnvio::StatusRecebido { codigo, texto: format!("{codigo}") });
        assert!(matches!(p, Passo::Continuar), "{codigo}");
    }
}

#[test]
fn status_de_erro_conclui_com_falha() {
    let p = avancar_replicacao(EtapaEnvio::StatusRecebido {
        codigo: 400,
        texto: "400 Bad Request".to_string(),
    });
    assert_eq!(erro(p), "Backup rejeitou a replicação (status 400 Bad Request)");
    for codigo in [100u16, 199, 300, 404, 503] {
        let p = avancar_replicacao(EtapaEnvio::StatusRecebido { codigo, texto: String::new() });
        assert_eq!(erro(p), "Backup rejeitou a replicação (status )");
    }
}

#[test]
fn corpo_invalido() {
    let p = avancar_replicacao(EtapaEnvio::CorpoInvalido("expected value".to_string()));
    assert_eq!(erro(p), "Resposta inválida do backup: expected value");
}

#[test]
fn ack_aceito_conclui_ok() {
    let p = avancar_replicacao(EtapaEnvio::AckRecebido(AckResposta {
        aceito: true,
        mensagem: "Cliente replicado com sucesso".to_string(),
    }));
    assert!(matches!(p, Passo::Concluir(Ok(()))));
}

#[test]
fn ack_recusado_conclui_com_falha() {
    let p = avancar_replicacao(EtapaEnvio::AckRecebido(AckResposta {
        aceito: false,
        mensagem: "Operação desconhecida: x".to_string(),
    }));
    assert_eq!(erro(p), "Backup recusou operação: Operação desconhecida: x");
}

#[test]
fn textos() {
    assert_eq!(concatenar("ab", "çd"), "abçd");
    assert_eq!(concatenar("", ""), "");
    assert!(mesmo_texto("primario", "primario"));
    assert!(!mesmo_texto("primario", "primário"));
    assert!(!mesmo_texto("a", ""));
}
