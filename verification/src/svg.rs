//! The card on which the monitor shows a game, and where its placeholders stand.
use vstd::prelude::*;
use vstd::string::*;

use crate::template;
use crate::text;

verus! {

/// The card on which the monitor shows a game.
pub const SVG_TEMPLATE: &'static str = r##"<svg xmlns="http://www.w3.org/2000/svg" width="3500" height="700" viewBox="0 0 350 70">
        <foreignObject width="350" height="70">
            <div xmlns="http://www.w3.org/1999/xhtml" style="width: 100%; height: 100%;">
                <style>
                    .card {
                        background: linear-gradient(135deg, #171a21 0%, #2a475e 100%);
                        width: 200px;
                        height: 30px;
                        display: flex;
                        align-items: center;
                        border-radius: 5px;
                        padding: 10px;
                        font-family: 'Segoe UI', Tahoma, Geneva, Verdana, sans-serif;
                        box-shadow: 0 4px 6px rgba(0,0,0,0.3);
                    }
                    .content {
                        display: flex;
                        width: 100%;
                        flex-direction: column;
                        justify-content: center;
                        overflow: hidden;
                        white-space: nowrap;
                    }
                    .label {
                        display: flex;
                        justify-content: space-between;
                        font-size: 10px;
                        color: #8F98A0;
                        margin-bottom: 2px;
                        text-transform: uppercase;
                        letter-spacing: 0.5px;
                    }
                    .game-name {
                        font-size: 14px;
                        color: %GameNameColor%;
                        font-weight: bold;
                        text-overflow: ellipsis;
                        overflow: hidden;
                        text-shadow: 1px 1px 2px rgba(0,0,0,0.5);
                    }
                </style>
                <div class="card">
                    <div class="content">
                        <div class="label">
                            <span> %Status% </span>
                            <span style="font-family: monospace;"> %PlayTime% </span>
                        </div>
                        <div class="game-name">%GameName%</div>
                    </div>
                </div>
            </div>
        </foreignObject>
        </svg>"##;

/// What stands around the placeholders: texts without percent signs, set off by characters that
/// stand in no placeholder.
pub proof fn lemma_surroundings()
    ensures
        template::plain("<div class=\"game-name\">"@) && template::plain("</div>"@),
        template::plain("> "@) && template::plain(" </span>"@),
        template::plain("<span> "@),
        template::plain("color: "@) && template::plain(";"@),
        "<div class=\"game-name\">"@.len() == 23 && "<div class=\"game-name\">"@.last() == '>',
        "</div>"@.len() == 6 && "</div>"@[0] == '<',
        "> "@.len() == 2 && "> "@.last() == ' ',
        " </span>"@.len() == 8 && " </span>"@[0] == ' ',
        "<span> "@.len() == 7 && "<span> "@.last() == ' ',
        "color: "@.len() == 7 && "color: "@.last() == ' ',
        ";"@.len() == 1 && ";"@[0] == ';',
        template::placeholder("GameName"@).len() == 10,
        template::placeholder("PlayTime"@).len() == 10,
        template::placeholder("Status"@).len() == 8,
        template::placeholder("GameNameColor"@).len() == 15,
{
    reveal_strlit("<div class=\"game-name\">");
    reveal_strlit("</div>");
    reveal_strlit("> ");
    reveal_strlit(" </span>");
    reveal_strlit("<span> ");
    reveal_strlit("color: ");
    reveal_strlit(";");
    reveal_strlit("GameName");
    reveal_strlit("PlayTime");
    reveal_strlit("Status");
    reveal_strlit("GameNameColor");
}

/// Where the placeholders stand in the template, with what stands around them.
pub proof fn lemma_places()
    ensures
        SVG_TEMPLATE@.len() == 2292,
        text::occurs_at(
            SVG_TEMPLATE@,
            "<div class=\"game-name\">"@ + template::placeholder("GameName"@) + "</div>"@,
            2144,
        ),
        text::occurs_at(
            SVG_TEMPLATE@,
            "> "@ + template::placeholder("PlayTime"@) + " </span>"@,
            2068,
        ),
        text::occurs_at(
            SVG_TEMPLATE@,
            "<span> "@ + template::placeholder("Status"@) + " </span>"@,
            1979,
        ),
        text::occurs_at(
            SVG_TEMPLATE@,
            "color: "@ + template::placeholder("GameNameColor"@) + ";"@,
            1559,
        ),
        SVG_TEMPLATE@[2143] == ' ' && SVG_TEMPLATE@[2183] == '\n',
        SVG_TEMPLATE@[2067] == '"' && SVG_TEMPLATE@[2088] == '\n',
        SVG_TEMPLATE@[1978] == ' ' && SVG_TEMPLATE@[2002] == '\n',
        SVG_TEMPLATE@[1558] == ' ' && SVG_TEMPLATE@[1582] == '\n',
{
    reveal_strlit(
        r##"<svg xmlns="http://www.w3.org/2000/svg" width="3500" height="700" viewBox="0 0 350 70">
        <foreignObject width="350" height="70">
            <div xmlns="http://www.w3.org/1999/xhtml" style="width: 100%; height: 100%;">
                <style>
                    .card {
                        background: linear-gradient(135deg, #171a21 0%, #2a475e 100%);
                        width: 200px;
                        height: 30px;
                        display: flex;
                        align-items: center;
                        border-radius: 5px;
                        padding: 10px;
                        font-family: 'Segoe UI', Tahoma, Geneva, Verdana, sans-serif;
                        box-shadow: 0 4px 6px rgba(0,0,0,0.3);
                    }
                    .content {
                        display: flex;
                        width: 100%;
                        flex-direction: column;
                        justify-content: center;
                        overflow: hidden;
                        white-space: nowrap;
                    }
                    .label {
                        display: flex;
                        justify-content: space-between;
                        font-size: 10px;
                        color: #8F98A0;
                        margin-bottom: 2px;
                        text-transform: uppercase;
                        letter-spacing: 0.5px;
                    }
                    .game-name {
                        font-size: 14px;
                        color: %GameNameColor%;
                        font-weight: bold;
                        text-overflow: ellipsis;
                        overflow: hidden;
                        text-shadow: 1px 1px 2px rgba(0,0,0,0.5);
                    }
                </style>
                <div class="card">
                    <div class="content">
                        <div class="label">
                            <span> %Status% </span>
                            <span style="font-family: monospace;"> %PlayTime% </span>
                        </div>
                        <div class="game-name">%GameName%</div>
                    </div>
                </div>
            </div>
        </foreignObject>
        </svg>"##,
    );
    reveal_strlit("<div class=\"game-name\">");
    reveal_strlit("</div>");
    reveal_strlit("> ");
    reveal_strlit(" </span>");
    reveal_strlit("<span> ");
    reveal_strlit("color: ");
    reveal_strlit(";");
    reveal_strlit("GameName");
    reveal_strlit("PlayTime");
    reveal_strlit("Status");
    reveal_strlit("GameNameColor");
    assert(SVG_TEMPLATE@.subrange(2144, 2183) =~= "<div class=\"game-name\">"@
        + template::placeholder("GameName"@) + "</div>"@);
    assert(SVG_TEMPLATE@.subrange(2068, 2088) =~= "> "@ + template::placeholder("PlayTime"@)
        + " </span>"@);
    assert(SVG_TEMPLATE@.subrange(1979, 2002) =~= "<span> "@ + template::placeholder("Status"@)
        + " </span>"@);
    assert(SVG_TEMPLATE@.subrange(1559, 1582) =~= "color: "@ + template::placeholder(
        "GameNameColor"@,
    ) + ";"@);
}

} // verus!
