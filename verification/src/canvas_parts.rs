//! The fixed text of the pages that draw on a canvas, cut where geometry
//! and settings are written in.

use vstd::prelude::*;

verus! {

pub const CANVAS_MARKUP: &'static str = r#"<canvas id="canvas" width="1000" height="1000" style="width:500px;height:500px"></canvas>"#;

pub const FULL_01: &'static str = r#"
"#;

pub const FULL_02: &'static str = r#"
<div style="margin-top:10px">
  <input type="range" id="slider" min="0" max="1" step="0.001" value="0" style="width:500px"/>
  <span id="tval">t = 0.000</span>
</div>
<div style="margin-top:5px;display:flex;flex-wrap:wrap;gap:10px;align-items:center;justify-content:center">
  <span id="loopVal">loop 0/0 — harmonics: 1</span>
  <span style="color:#888">max harmonics: "#;

pub const FULL_03: &'static str = r#"</span>
</div>
<div style="margin-top:5px;display:flex;flex-wrap:wrap;gap:10px;align-items:center;justify-content:center">
  <button id="startBtn">Start</button>
  <button id="stopBtn">Stop</button>
  <button id="harmonicsBtn">Harmonics</button>
  <label>Harmonics loop: <input type="text" id="stepsInput" value=""#;

pub const FULL_04: &'static str = r#"" style="width:400px;font-family:monospace;font-size:0.85em" title="from step to speed ; from step to speed ; ..."/></label>
</div>
<div style="margin-top:5px;display:flex;flex-wrap:wrap;gap:10px;align-items:center;justify-content:center">
  "#;

pub const FULL_05: &'static str = r#"
  <label><input type="checkbox" id="chkPoint""#;

pub const FULL_06: &'static str = r#"/> Point</label>
  "#;

pub const FULL_07: &'static str = r#"
  <label><input type="checkbox" id="chkNh""#;

pub const FULL_08: &'static str = r#"/> NH label</label>
  "#;

pub const FULL_09: &'static str = r#"
</div>
<div style="margin-top:5px;display:flex;flex-wrap:wrap;gap:10px;align-items:center;justify-content:center">
  <label>Opacity: <input type="range" id="opacitySlider" min="0" max="1" step="0.05" value=""#;

pub const FULL_10: &'static str = r#"" style="width:100px"/> <span id="opacityVal">"#;

pub const FULL_11: &'static str = r#"</span></label>
  <label>Trace length: <input type="range" id="traceLenSlider" min="0.05" max="1" step="0.05" value=""#;

pub const FULL_12: &'static str = r#"" style="width:100px"/> <span id="traceLenVal">"#;

pub const FULL_13: &'static str = r#"</span></label>
  <label>Trace width: <input type="range" id="traceWidthSlider" min="0.1" max="2" step="0.1" value=""#;

pub const FULL_14: &'static str = r#"" style="width:100px"/> <span id="traceWidthVal">"#;

pub const FULL_15: &'static str = r#"</span></label>
  <label>Contour width: <input type="range" id="contourWidthSlider" min="0.1" max="5" step="0.1" value=""#;

pub const FULL_16: &'static str = r#"" style="width:100px"/> <span id="contourWidthVal">"#;

pub const FULL_17: &'static str = r#"</span></label>
</div>
<div id="harmonicsDiv" style="display:none;margin-top:10px;max-height:300px;overflow:auto">
  <table style="border-collapse:collapse;font-family:monospace;font-size:0.85em">
    <thead><tr><th style="padding:2px 8px;border-bottom:1px solid #555">#</th><th style="padding:2px 8px;border-bottom:1px solid #555">freq</th><th style="padding:2px 8px;border-bottom:1px solid #555">re</th><th style="padding:2px 8px;border-bottom:1px solid #555">im</th><th style="padding:2px 8px;border-bottom:1px solid #555">radius</th></tr></thead>
    <tbody id="harmonicsTbody"></tbody>
  </table>
</div>
<script>
const canvas = document.getElementById("canvas");
const ctx = canvas.getContext("2d");
const VB_X = "#;

pub const FULL_18: &'static str = r#";
const VB_Y = "#;

pub const FULL_19: &'static str = r#";
const VB_SIZE = "#;

pub const FULL_20: &'static str = r#";
const contourPath2D = new Path2D(""#;

pub const FULL_21: &'static str = r#"");
const points = "#;

pub const FULL_22: &'static str = r#";
const fourier = "#;

pub const FULL_23: &'static str = r#";
const slider = document.getElementById("slider");
const tval = document.getElementById("tval");
const fourierCircleColors = ["blue","green","orange","purple","cyan","magenta"];
const traceColors = "#;

pub const FULL_24: &'static str = r#";
let traceColorIdx = 0;
const scale = VB_SIZE / 100;
const dotR = "#;

pub const FULL_25: &'static str = r#";
const sparkScale = VB_SIZE / 100;
const NUM_RAYS = 14;
const NUM_PARTICLES = 8;

let traceVisible = true;
let contourVisible = true;
let fourierVisible = true;
let dotVisible = "#;

pub const FULL_26: &'static str = r#";
let showNh = "#;

pub const FULL_27: &'static str = r#";
let traceOpacity = "#;

pub const FULL_28: &'static str = r#";
let traceWidth = "#;

pub const FULL_29: &'static str = r#";
let contourWidth = "#;

pub const FULL_30: &'static str = r#";
let traceHistory = [];
let firstDotX = 0, firstDotY = 0;

const dpr = window.devicePixelRatio || 1;
canvas.width = 500 * dpr;
canvas.height = 500 * dpr;

function setupTransform() {
  ctx.setTransform(1,0,0,1,0,0);
  ctx.scale(dpr, dpr);
  const s = 500 / VB_SIZE;
  ctx.translate(-VB_X * s, -VB_Y * s);
  ctx.scale(s, s);
}

function getShowMode(selId) {
  const sel = document.getElementById(selId);
  const mode = sel.value;
  if (mode === "every") {
    const m = parseInt(document.getElementById(selId + "M").value) || 2;
    const rs = document.getElementById(selId + "R").value.split(",").map(s => parseInt(s.trim())).filter(n => !isNaN(n));
    return { modulo: m, congruents: rs.length ? rs : [0] };
  }
  return mode;
}

function shouldShow(mode, loopIdx) {
  if (mode === "always") return true;
  if (mode === "never") return false;
  return mode.congruents.includes(loopIdx % mode.modulo);
}

function wireShowSelect(selId) {
  const sel = document.getElementById(selId);
  const mInput = document.getElementById(selId + "M");
  const rInput = document.getElementById(selId + "R");
  sel.addEventListener("change", function() {
    const show = this.value === "every" ? "" : "none";
    mInput.style.display = show;
    rInput.style.display = show;
  });
}
wireShowSelect("selContour");
wireShowSelect("selTrace");
wireShowSelect("selCircles");

const opacitySlider = document.getElementById("opacitySlider");
const opacityVal = document.getElementById("opacityVal");
opacitySlider.addEventListener("input", function() {
  opacityVal.textContent = parseFloat(this.value).toFixed(2);
  traceOpacity = parseFloat(this.value);
});

const traceLenSlider = document.getElementById("traceLenSlider");
const traceLenVal = document.getElementById("traceLenVal");
traceLenSlider.addEventListener("input", function() {
  traceLenVal.textContent = parseFloat(this.value).toFixed(2);
});

const traceWidthSlider = document.getElementById("traceWidthSlider");
const traceWidthVal = document.getElementById("traceWidthVal");
traceWidthSlider.addEventListener("input", function() {
  traceWidthVal.textContent = parseFloat(this.value).toFixed(1);
  traceWidth = parseFloat(this.value);
});

const contourWidthSlider = document.getElementById("contourWidthSlider");
const contourWidthVal = document.getElementById("contourWidthVal");
contourWidthSlider.addEventListener("input", function() {
  contourWidthVal.textContent = parseFloat(this.value).toFixed(1);
  contourWidth = parseFloat(this.value);
});

document.getElementById("chkPoint").addEventListener("change", function() {
  dotVisible = this.checked;
});
document.getElementById("chkNh").addEventListener("change", function() {
  showNh = this.checked;
});

function evalFourier(t) {
  if (!fourier) return null;
  const numH = getNumHarmonics();
  let cx = 0, cy = 0;
  for (let k = 0; k < numH; k++) {
    const c = fourier[k];
    const theta = 2 * Math.PI * c.freq * t;
    cx += c.re * Math.cos(theta) - c.im * Math.sin(theta);
    cy += c.im * Math.cos(theta) + c.re * Math.sin(theta);
  }
  return [cx, cy];
}

function drawContour() {
  if (!contourVisible) return;
  ctx.save();
  ctx.strokeStyle = "white";
  ctx.lineWidth = contourWidth * scale;
  ctx.stroke(contourPath2D);
  ctx.restore();
}

function drawFourier(t) {
  if (!fourierVisible || !fourier) return;
  const numH = getNumHarmonics();
  let cx = 0, cy = 0;
  for (let k = 0; k < numH; k++) {
    const c = fourier[k];
    const theta = 2 * Math.PI * c.freq * t;
    const dx = c.re * Math.cos(theta) - c.im * Math.sin(theta);
    const dy = c.im * Math.cos(theta) + c.re * Math.sin(theta);
    const nx = cx + dx;
    const ny = cy + dy;
    const color = fourierCircleColors[k % fourierCircleColors.length];
    ctx.beginPath();
    ctx.arc(cx, cy, c.r, 0, 2 * Math.PI);
    ctx.strokeStyle = color;
    ctx.lineWidth = 0.3 * scale;
    ctx.setLineDash([scale, scale]);
    ctx.stroke();
    ctx.setLineDash([]);
    ctx.beginPath();
    ctx.moveTo(cx, cy);
    ctx.lineTo(nx, ny);
    ctx.strokeStyle = color;
    ctx.lineWidth = 0.3 * scale;
    ctx.stroke();
    ctx.beginPath();
    ctx.arc(nx, ny, 0.8 * scale, 0, 2 * Math.PI);
    ctx.fillStyle = color;
    ctx.fill();
    if (k === 0) { firstDotX = nx; firstDotY = ny; }
    cx = nx;
    cy = ny;
  }
}

function updateTraceData(t) {
  if (!traceVisible || !fourier) return;
  const pt = evalFourier(t);
  if (!pt) return;
  traceHistory.push(pt);
  const maxLen = Math.round(parseFloat(traceLenSlider.value) * points.length);
  if (traceHistory.length > maxLen) {
    traceHistory = traceHistory.slice(traceHistory.length - maxLen);
  }
}

function drawTrace() {
  if (!traceVisible || traceHistory.length < 2) return;
  ctx.save();
  ctx.globalAlpha = traceOpacity;
  ctx.strokeStyle = traceColors[traceColorIdx];
  ctx.lineWidth = traceWidth * scale;
  ctx.lineJoin = "round";
  ctx.beginPath();
  ctx.moveTo(traceHistory[0][0], traceHistory[0][1]);
  for (let i = 1; i < traceHistory.length; i++) {
    ctx.lineTo(traceHistory[i][0], traceHistory[i][1]);
  }
  ctx.stroke();
  ctx.restore();
}

function drawSpark(px, py) {
  if (!dotVisible) return;
  ctx.save();
  ctx.translate(px, py);
  const glowR = dotR * 3;
  const grad = ctx.createRadialGradient(0, 0, 0, 0, 0, glowR);
  grad.addColorStop(0, "white");
  grad.addColorStop(0.2, "lightyellow");
  grad.addColorStop(0.5, "orange");
  grad.addColorStop(0.8, "orangered");
  grad.addColorStop(1, "transparent");
  ctx.beginPath();
  ctx.arc(0, 0, glowR, 0, 2 * Math.PI);
  ctx.fillStyle = grad;
  ctx.globalAlpha = 0.9;
  ctx.fill();
  ctx.globalAlpha = 1;
  ctx.beginPath();
  ctx.arc(0, 0, dotR * 0.5, 0, 2 * Math.PI);
  ctx.fillStyle = "white";
  ctx.fill();
  ctx.lineCap = "round";
  for (let i = 0; i < NUM_RAYS; i++) {
    const angle = Math.random() * Math.PI * 2;
    const len = (2.0 + Math.random() * 6.0) * sparkScale;
    const inner = (0.2 + Math.random() * 0.5) * sparkScale;
    const cos = Math.cos(angle), sin = Math.sin(angle);
    ctx.beginPath();
    ctx.moveTo(cos * inner, sin * inner);
    ctx.lineTo(cos * len, sin * len);
    ctx.strokeStyle = Math.random() > 0.4 ? "gold" : "darkorange";
    ctx.lineWidth = (0.3 + Math.random() * 0.5) * sparkScale;
    ctx.globalAlpha = 0.3 + Math.random() * 0.6;
    ctx.stroke();
  }
  for (let i = 0; i < NUM_PARTICLES; i++) {
    const angle = Math.random() * Math.PI * 2;
    const dist = (2.0 + Math.random() * 5.0) * sparkScale;
    ctx.beginPath();
    ctx.arc(Math.cos(angle) * dist, Math.sin(angle) * dist, (0.1 + Math.random() * 0.3) * sparkScale, 0, 2 * Math.PI);
    ctx.fillStyle = "gold";
    ctx.globalAlpha = 0.3 + Math.random() * 0.5;
    ctx.fill();
  }
  ctx.restore();
}

function drawNhLabel() {
  if (!showNh || !fourier) return;
  ctx.save();
  ctx.fillStyle = "white";
  ctx.font = (VB_SIZE * 4 / 100) + "px sans-serif";
  ctx.textBaseline = "middle";
  ctx.fillText(getNumHarmonics(), firstDotX + 2 * scale, firstDotY);
  ctx.restore();
}

let numHarmonics = 2;
function getNumHarmonics() {
  if (!fourier) return 0;
  return Math.max(1, Math.min(numHarmonics, fourier.length));
}

function updateDisplay(t) {
  tval.textContent = "t = " + t.toFixed(3);
  slider.value = t;
  ctx.setTransform(1,0,0,1,0,0);
  ctx.clearRect(0, 0, canvas.width, canvas.height);
  setupTransform();
  drawContour();
  drawFourier(t);
  updateTraceData(t);
  drawTrace();
  const pt = evalFourier(t);
  if (pt) drawSpark(pt[0], pt[1]);
  drawNhLabel();
}

slider.addEventListener("input", function() {
  traceHistory = [];
  updateDisplay(parseFloat(this.value));
});

let animId = null;
let lastTime = null;
let currentT = 0;
let loopIndex = 0;

const maxHarmonics = "#;

pub const FULL_31: &'static str = r#";
const maxNh = fourier ? Math.min(maxHarmonics, fourier.length) : 1;
let nhSteps = [];
let nhSpeeds = [];
let currentSpeed = 1;
let totalLoops = 0;

function parseStepsStr(str) {
  const groups = str.split(";").map(s => s.trim()).filter(s => s.length > 0);
  const ranges = [];
  for (const g of groups) {
    const parts = g.split(/\s+/).map(Number);
    if (parts.length === 4 && parts.every(n => !isNaN(n))) {
      ranges.push({ from: parts[0], step: parts[1], to: parts[2], speed: parts[3] });
    }
  }
  return ranges;
}

function rebuildNhSteps(str) {
  const ranges = parseStepsStr(str);
  nhSteps = [];
  nhSpeeds = [];
  if (ranges.length === 0) { nhSteps = [1]; nhSpeeds = [1]; totalLoops = 1; return; }
  let i = ranges[0].from;
  while (nhSteps.length < 10000) {
    let spd = 1;
    for (const r of ranges) {
      if (i >= r.from && i < r.to) { spd = r.speed; break; }
    }
    nhSteps.push(Math.min(i, maxNh));
    nhSpeeds.push(spd);
    if (i >= maxNh) break;
    let found = false;
    for (const r of ranges) {
      if (i >= r.from && i < r.to) { i += r.step; found = true; break; }
    }
    if (!found) {
      let jumped = false;
      for (let k = 0; k < ranges.length - 1; k++) {
        if (i >= ranges[k].to && i < ranges[k+1].from) { i = ranges[k+1].from; jumped = true; break; }
      }
      if (!jumped) break;
    }
  }
  totalLoops = nhSteps.length;
}

rebuildNhSteps(document.getElementById("stepsInput").value);

const stepsInputEl = document.getElementById("stepsInput");
stepsInputEl.addEventListener("change", function() {
  rebuildNhSteps(this.value);
  loopIndex = 0;
  applyLoopParams();
});
stepsInputEl.addEventListener("keydown", function(e) {
  if (e.key === "Enter") {
    rebuildNhSteps(this.value);
    loopIndex = 0;
    applyLoopParams();
  }
});

function applyLoopParams() {
  const h = nhSteps[loopIndex];
  numHarmonics = h;
  currentSpeed = nhSpeeds[loopIndex] || 1;
  const titleEl = document.getElementById("pageTitle");
  if (titleEl) titleEl.textContent = "Harmonics: " + h;
  document.getElementById("loopVal").textContent = "loop " + loopIndex + "/" + totalLoops + " \u2014 harmonics: " + h;
  traceColorIdx = loopIndex % traceColors.length;
  traceVisible = shouldShow(getShowMode("selTrace"), loopIndex);
  if (!traceVisible) traceHistory = [];
  contourVisible = shouldShow(getShowMode("selContour"), loopIndex);
  fourierVisible = shouldShow(getShowMode("selCircles"), loopIndex);
}

applyLoopParams();

function animate(timestamp) {
  if (lastTime === null) lastTime = timestamp;
  const dt = (timestamp - lastTime) / 1000;
  lastTime = timestamp;
  currentT += dt * currentSpeed * 0.1;
  if (currentT > 1) {
    currentT -= 1;
    traceHistory = [];
    loopIndex = (loopIndex + 1) % totalLoops;
    applyLoopParams();
  }
  updateDisplay(currentT);
  animId = requestAnimationFrame(animate);
}

document.getElementById("startBtn").addEventListener("click", function() {
  if (animId !== null) return;
  lastTime = null;
  animId = requestAnimationFrame(animate);
});

document.getElementById("stopBtn").addEventListener("click", function() {
  if (animId !== null) {
    cancelAnimationFrame(animId);
    animId = null;
    lastTime = null;
  }
});

// Harmonics table
if (fourier) {
  const tbody = document.getElementById("harmonicsTbody");
  fourier.forEach((c, i) => {
    const tr = document.createElement("tr");
    tr.innerHTML = "<td style=\"padding:2px 8px\">"+i+"</td><td style=\"padding:2px 8px\">"+c.freq+"</td><td style=\"padding:2px 8px\">"+c.re.toFixed(4)+"</td><td style=\"padding:2px 8px\">"+c.im.toFixed(4)+"</td><td style=\"padding:2px 8px\">"+c.r.toFixed(4)+"</td>";
    tbody.appendChild(tr);
  });
}
document.getElementById("harmonicsBtn").addEventListener("click", function() {
  const div = document.getElementById("harmonicsDiv");
  div.style.display = div.style.display === "none" ? "" : "none";
});

// Auto-start
lastTime = null;
animId = requestAnimationFrame(animate);
</script>"#;

pub const EMBED_01: &'static str = r#"
<script>
const canvas = document.getElementById("canvas");
const ctx = canvas.getContext("2d");
const VB_X = "#;

pub const EMBED_02: &'static str = r#";
const VB_Y = "#;

pub const EMBED_03: &'static str = r#";
const VB_SIZE = "#;

pub const EMBED_04: &'static str = r#";
const contourPath2D = new Path2D(""#;

pub const EMBED_05: &'static str = r#"");
const points = "#;

pub const EMBED_06: &'static str = r#";
const fourier = "#;

pub const EMBED_07: &'static str = r#";
const fourierCircleColors = ["blue","green","orange","purple","cyan","magenta"];
const traceColors = "#;

pub const EMBED_08: &'static str = r#";
let traceColorIdx = 0;
const scale = VB_SIZE / 100;
const dotR = "#;

pub const EMBED_09: &'static str = r#";
const sparkScale = VB_SIZE / 100;
const NUM_RAYS = 14;
const NUM_PARTICLES = 8;
let contourVisible = "#;

pub const EMBED_10: &'static str = r#";
let traceVisible = "#;

pub const EMBED_11: &'static str = r#";
let fourierVisible = "#;

pub const EMBED_12: &'static str = r#";
const dotHidden = "#;

pub const EMBED_13: &'static str = r#";
const showNh = "#;

pub const EMBED_14: &'static str = r#";
const traceOpacity = "#;

pub const EMBED_15: &'static str = r#";
const traceWidth = "#;

pub const EMBED_16: &'static str = r#";
const contourWidth = "#;

pub const EMBED_17: &'static str = r#";
let traceHistory = [];
const traceMaxLen = Math.round("#;

pub const EMBED_18: &'static str = r#" * points.length);
let firstDotX = 0, firstDotY = 0;

const dpr = window.devicePixelRatio || 1;
canvas.width = 500 * dpr;
canvas.height = 500 * dpr;

function setupTransform() {
  ctx.setTransform(1,0,0,1,0,0);
  ctx.scale(dpr, dpr);
  const s = 500 / VB_SIZE;
  ctx.translate(-VB_X * s, -VB_Y * s);
  ctx.scale(s, s);
}

function evalFourier(t) {
  if (!fourier) return null;
  const numH = getNumHarmonics();
  let cx = 0, cy = 0;
  for (let k = 0; k < numH; k++) {
    const c = fourier[k];
    const theta = 2 * Math.PI * c.freq * t;
    cx += c.re * Math.cos(theta) - c.im * Math.sin(theta);
    cy += c.im * Math.cos(theta) + c.re * Math.sin(theta);
  }
  return [cx, cy];
}

function drawContour() {
  if (!contourVisible) return;
  ctx.save();
  ctx.strokeStyle = "white";
  ctx.lineWidth = contourWidth * scale;
  ctx.stroke(contourPath2D);
  ctx.restore();
}

function drawFourier(t) {
  if (!fourierVisible || !fourier) return;
  const numH = getNumHarmonics();
  let cx = 0, cy = 0;
  for (let k = 0; k < numH; k++) {
    const c = fourier[k];
    const theta = 2 * Math.PI * c.freq * t;
    const dx = c.re * Math.cos(theta) - c.im * Math.sin(theta);
    const dy = c.im * Math.cos(theta) + c.re * Math.sin(theta);
    const nx = cx + dx;
    const ny = cy + dy;
    const color = fourierCircleColors[k % fourierCircleColors.length];
    ctx.beginPath();
    ctx.arc(cx, cy, c.r, 0, 2 * Math.PI);
    ctx.strokeStyle = color;
    ctx.lineWidth = 0.3 * scale;
    ctx.setLineDash([scale, scale]);
    ctx.stroke();
    ctx.setLineDash([]);
    ctx.beginPath();
    ctx.moveTo(cx, cy);
    ctx.lineTo(nx, ny);
    ctx.strokeStyle = color;
    ctx.lineWidth = 0.3 * scale;
    ctx.stroke();
    ctx.beginPath();
    ctx.arc(nx, ny, 0.8 * scale, 0, 2 * Math.PI);
    ctx.fillStyle = color;
    ctx.fill();
    if (k === 0) { firstDotX = nx; firstDotY = ny; }
    cx = nx;
    cy = ny;
  }
}

function updateTraceData(t) {
  if (!traceVisible || !fourier) return;
  const pt = evalFourier(t);
  if (!pt) return;
  traceHistory.push(pt);
  if (traceHistory.length > traceMaxLen) {
    traceHistory = traceHistory.slice(traceHistory.length - traceMaxLen);
  }
}

function drawTrace() {
  if (!traceVisible || traceHistory.length < 2) return;
  ctx.save();
  ctx.globalAlpha = traceOpacity;
  ctx.strokeStyle = traceColors[traceColorIdx];
  ctx.lineWidth = traceWidth * scale;
  ctx.lineJoin = "round";
  ctx.beginPath();
  ctx.moveTo(traceHistory[0][0], traceHistory[0][1]);
  for (let i = 1; i < traceHistory.length; i++) {
    ctx.lineTo(traceHistory[i][0], traceHistory[i][1]);
  }
  ctx.stroke();
  ctx.restore();
}

function drawSpark(px, py) {
  if (dotHidden) return;
  ctx.save();
  ctx.translate(px, py);
  const glowR = dotR * 3;
  const grad = ctx.createRadialGradient(0, 0, 0, 0, 0, glowR);
  grad.addColorStop(0, "white");
  grad.addColorStop(0.2, "lightyellow");
  grad.addColorStop(0.5, "orange");
  grad.addColorStop(0.8, "orangered");
  grad.addColorStop(1, "transparent");
  ctx.beginPath();
  ctx.arc(0, 0, glowR, 0, 2 * Math.PI);
  ctx.fillStyle = grad;
  ctx.globalAlpha = 0.9;
  ctx.fill();
  ctx.globalAlpha = 1;
  ctx.beginPath();
  ctx.arc(0, 0, dotR * 0.5, 0, 2 * Math.PI);
  ctx.fillStyle = "white";
  ctx.fill();
  ctx.lineCap = "round";
  for (let i = 0; i < NUM_RAYS; i++) {
    const angle = Math.random() * Math.PI * 2;
    const len = (2.0 + Math.random() * 6.0) * sparkScale;
    const inner = (0.2 + Math.random() * 0.5) * sparkScale;
    const cos = Math.cos(angle), sin = Math.sin(angle);
    ctx.beginPath();
    ctx.moveTo(cos * inner, sin * inner);
    ctx.lineTo(cos * len, sin * len);
    ctx.strokeStyle = Math.random() > 0.4 ? "gold" : "darkorange";
    ctx.lineWidth = (0.3 + Math.random() * 0.5) * sparkScale;
    ctx.globalAlpha = 0.3 + Math.random() * 0.6;
    ctx.stroke();
  }
  for (let i = 0; i < NUM_PARTICLES; i++) {
    const angle = Math.random() * Math.PI * 2;
    const dist = (2.0 + Math.random() * 5.0) * sparkScale;
    ctx.beginPath();
    ctx.arc(Math.cos(angle) * dist, Math.sin(angle) * dist, (0.1 + Math.random() * 0.3) * sparkScale, 0, 2 * Math.PI);
    ctx.fillStyle = "gold";
    ctx.globalAlpha = 0.3 + Math.random() * 0.5;
    ctx.fill();
  }
  ctx.restore();
}

function drawNhLabel() {
  if (!showNh || !fourier) return;
  ctx.save();
  ctx.fillStyle = "white";
  ctx.font = (VB_SIZE * 4 / 100) + "px sans-serif";
  ctx.textBaseline = "middle";
  ctx.fillText(getNumHarmonics(), firstDotX + 2 * scale, firstDotY);
  ctx.restore();
}

let numHarmonics = 2;
function getNumHarmonics() {
  if (!fourier) return 0;
  return Math.max(1, Math.min(numHarmonics, fourier.length));
}

function updateDisplay(t) {
  ctx.setTransform(1,0,0,1,0,0);
  ctx.clearRect(0, 0, canvas.width, canvas.height);
  setupTransform();
  drawContour();
  drawFourier(t);
  updateTraceData(t);
  drawTrace();
  const pt = evalFourier(t);
  if (pt) drawSpark(pt[0], pt[1]);
  drawNhLabel();
}

let animId = null;
let lastTime = null;
let currentT = 0;
let loopIndex = 0;

const maxHarmonics = "#;

pub const EMBED_19: &'static str = r#";
const maxNh = fourier ? Math.min(maxHarmonics, fourier.length) : 1;
const nhSteps = [];
const nhSpeeds = [];
{
  const ranges = "#;

pub const EMBED_20: &'static str = r#";
  let i = ranges.length > 0 ? ranges[0][0] : 1;
  while (nhSteps.length < 10000) {
    let spd = 1;
    for (const r of ranges) {
      if (i >= r[0] && i < r[2]) { spd = r[3]; break; }
    }
    nhSteps.push(Math.min(i, maxNh));
    nhSpeeds.push(spd);
    if (i >= maxNh) break;
    let found = false;
    for (const r of ranges) {
      if (i >= r[0] && i < r[2]) { i += r[1]; found = true; break; }
    }
    if (!found) {
      let jumped = false;
      for (let k = 0; k < ranges.length - 1; k++) {
        if (i >= ranges[k][2] && i < ranges[k+1][0]) { i = ranges[k+1][0]; jumped = true; break; }
      }
      if (!jumped) break;
    }
  }
}
const totalLoops = nhSteps.length;
let currentSpeed = nhSpeeds.length > 0 ? nhSpeeds[0] : 1;

function applyLoopParams() {
  const h = nhSteps[loopIndex];
  numHarmonics = h;
  currentSpeed = nhSpeeds[loopIndex] || 1;
  traceColorIdx = loopIndex % traceColors.length;
"#;

pub const EMBED_21: &'static str = r#"
"#;

pub const EMBED_22: &'static str = r#"
"#;

pub const EMBED_23: &'static str = r#"
}

applyLoopParams();

function animate(timestamp) {
  if (lastTime === null) lastTime = timestamp;
  const dt = (timestamp - lastTime) / 1000;
  lastTime = timestamp;
  currentT += dt * currentSpeed * 0.1;
  if (currentT > 1) {
    currentT -= 1;
    traceHistory = [];
    loopIndex = (loopIndex + 1) % totalLoops;
    applyLoopParams();
  }
  updateDisplay(currentT);
  animId = requestAnimationFrame(animate);
}

lastTime = null;
animId = requestAnimationFrame(animate);
</script>"#;

pub const PAGE_01: &'static str = r#"<html>
<head><title id="pageTitle">Harmonics: 2</title></head>
<body style="display:flex;flex-direction:column;align-items:center;justify-content:center;margin:0;min-height:100vh;background:black;color:white">
"#;

pub const PAGE_02: &'static str = r#"
</body>
</html>"#;

pub const FRAGMENT_01: &'static str = r#"<div style="display:flex;flex-direction:column;align-items:center;background:black;color:white">
"#;

pub const FRAGMENT_02: &'static str = r#"
</div>"#;

} // verus!
