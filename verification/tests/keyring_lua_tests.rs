//! Tests of the keyring as scripts see it: a handle with the fixed
//! method set, wired into a real engine the way an embedder wires it.

use rlua::{Lua, UserData, UserDataMethods, Variadic};
use zenroom_minimal::{Keyring, Octet};

fn to_lua_err(e: zenroom_minimal::Error) -> rlua::Error {
    rlua::Error::RuntimeError(format!("{:?}", e))
}

#[derive(Clone)]
struct LuaOctet(Octet);

impl UserData for LuaOctet {
    fn add_methods<'lua, M: UserDataMethods<'lua, Self>>(methods: &mut M) {
        methods.add_method("base64", |_, this, ()| Ok(this.0.to_base64()));
        methods.add_method("string", |_, this, ()| this.0.to_text().map_err(to_lua_err));
    }
}

#[derive(Clone)]
struct LuaKeyring(Keyring);

impl UserData for LuaKeyring {
    fn add_methods<'lua, M: UserDataMethods<'lua, Self>>(methods: &mut M) {
        methods.add_method_mut("generate", |_, this, ()| {
            this.0.generate().map_err(to_lua_err)
        });
        methods.add_method_mut("public", |_, this, vals: Variadic<LuaOctet>| {
            if vals.len() > 0 {
                this.0.set_public(vals[0].0.duplicate()).map(LuaOctet).map_err(to_lua_err)
            } else {
                Ok(LuaOctet(this.0.public().duplicate()))
            }
        });
        methods.add_method_mut("private", |_, this, vals: Variadic<LuaOctet>| {
            if vals.len() > 0 {
                this.0.set_private(vals[0].0.duplicate()).map(LuaOctet).map_err(to_lua_err)
            } else {
                Ok(LuaOctet(this.0.private().duplicate()))
            }
        });
        methods.add_method("sign", |_, this, message: LuaOctet| {
            this.0.sign(&message.0).map(LuaOctet).map_err(to_lua_err)
        });
        methods.add_method("verify", |_, this, (message, signature): (LuaOctet, LuaOctet)| {
            Ok(this.0.verify(&message.0, &signature.0))
        });
    }
}

fn install_keyring_class(lua: &Lua) {
    lua.context(|ctx| {
        let module = ctx.create_table()?;
        module.set("new", ctx.create_function(|_, ()| Ok(LuaKeyring(Keyring::new())))?)?;
        module.set(
            "generate",
            ctx.create_function(|_, ()| {
                Keyring::new_generated().map(LuaKeyring).map_err(to_lua_err)
            })?,
        )?;
        ctx.globals().set("KEYRING", module)
    })
    .unwrap();
}

#[test]
fn lua_generate() {
    let lua = Lua::new();
    install_keyring_class(&lua);
    let keyring: LuaKeyring = lua.context(|ctx| ctx.load("KEYRING.generate()").eval()).unwrap();
    assert_eq!(keyring.0.public().len(), 65);
    assert_eq!(keyring.0.private().len(), 138);
}

#[test]
fn lua_sign() {
    let lua = Lua::new();
    let keyring = LuaKeyring(Keyring::new_generated().unwrap());
    let message = LuaOctet(Octet::new(b"hello".to_vec()));
    let signature: LuaOctet = lua
        .context(|ctx| {
            ctx.globals().set("keyring", keyring)?;
            ctx.globals().set("message", message)?;
            ctx.load("keyring:sign(message)").eval()
        })
        .unwrap();
    assert_eq!(signature.0.len(), 64);
}

#[test]
fn lua_verify() {
    let lua = Lua::new();
    let host_keyring = Keyring::new_generated().unwrap();
    let host_message = Octet::new(b"hello".to_vec());
    let host_signature = host_keyring.sign(&host_message).unwrap();
    let verified: bool = lua
        .context(|ctx| {
            ctx.globals().set("keyring", LuaKeyring(host_keyring))?;
            ctx.globals().set("message", LuaOctet(host_message))?;
            ctx.globals().set("signature", LuaOctet(host_signature))?;
            ctx.load("keyring:verify(message, signature)").eval()
        })
        .unwrap();
    assert!(verified);
}

#[test]
fn lua_octet_methods() {
    let lua = Lua::new();
    let octet = LuaOctet(Octet::new(b"hello".to_vec()));
    let (b64, text): (String, String) = lua
        .context(|ctx| {
            ctx.globals().set("o", octet)?;
            ctx.load("return o:base64(), o:string()").eval()
        })
        .unwrap();
    assert_eq!(b64, "aGVsbG8".to_string());
    assert_eq!(text, "hello".to_string());
}
