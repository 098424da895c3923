use faena::texto::{caracteres, texto_entero, texto_igual, texto_natural, vacio_tras_recortar};

#[test]
fn recorte_de_espacios() {
    assert!(vacio_tras_recortar(""));
    assert!(vacio_tras_recortar(" \t\n\r"));
    assert!(vacio_tras_recortar("\u{3000}\u{a0}\u{2009}\u{85}"));
    assert!(!vacio_tras_recortar("  a  "));
    assert!(!vacio_tras_recortar("\u{200b}"));
}

#[test]
fn numeros_en_texto() {
    assert_eq!(texto_natural(0), "0");
    assert_eq!(texto_natural(1234567890), "1234567890");
    assert_eq!(texto_natural(u128::MAX), u128::MAX.to_string());
    assert_eq!(texto_entero(-42), "-42");
    assert_eq!(texto_entero(i32::MIN), i32::MIN.to_string());
    assert_eq!(texto_entero(i32::MAX), "2147483647");
}

#[test]
fn comparar_textos() {
    assert!(texto_igual("Privado", "Privado"));
    assert!(!texto_igual("Privado", "privado"));
    assert_eq!(caracteres("añb"), vec!['a', 'ñ', 'b']);
}
